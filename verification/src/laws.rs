//! What the operations are for: how their results relate to what they are given,
//! to each other, and to what the outside calls come to.
use vstd::prelude::*;
use std::time::SystemTime;
use ring::digest::Digest;
use crate::anchors;
use crate::anchors::DistinguishedName;
use crate::anchors::OwnedTrustAnchor;
use crate::anchors::RootCertStore;
use crate::anchors::trust_roots;
use crate::client;
use crate::client::AllowAnyAnonymousOrAuthenticatedClient;
use crate::client::AllowAnyAuthenticatedClient;
use crate::client::ClientCertVerifier;
use crate::client::NoClientAuth;
use crate::codec::Codec;
use crate::codec::PayloadU16;
use crate::enums;
use crate::enums::SignatureScheme;
use crate::error::CertificateError;
use crate::error::InvalidMessage;
use crate::error::PeerMisbehaved;
use crate::error::TlsError;
use crate::handshake;
use crate::handshake::convert_alg_tls13;
use crate::handshake::convert_scheme;
use crate::handshake::supported_sig_algs;
use crate::handshake::verify_sig_using_any_alg;
use crate::handshake::verify_signed_struct;
use crate::handshake::verify_tls13;
use crate::key;
use crate::key::Certificate;
use crate::key::ParsedCertificate;
use crate::markers::ClientCertVerified;
use crate::markers::HandshakeSignatureValid;
use crate::markers::ServerCertVerified;
use crate::message::construct_tls13_client_verify_message;
use crate::message::construct_tls13_server_verify_message;
use crate::message::verify_message_for_hash;
use crate::pki;
use crate::pki::PkiAlgorithm;
use crate::pki::PkiError;
use crate::pki::SubjectName;
use crate::pki::TrustAnchorView;
use crate::pki_error;
use crate::pki_error::certificate_error;
use crate::pki_error::pki_error;
use crate::pki_error::pki_outcome;
use crate::server;
use crate::server::ServerCertVerifier;
use crate::server::WebPkiVerifier;
use crate::server::intermediate_chain;
use crate::server::verify_server_cert_signed_by_trust_anchor;
use crate::server::verify_server_name;
use crate::server_name::DnsName;
use crate::server_name::IpAddr;
use crate::server_name::ServerName;
use crate::signed_struct::DigitallySignedStruct;

verus! {

// ---------------------------------------------------------------------------
// Lists that are handed on
// ---------------------------------------------------------------------------

/// Path building is handed every intermediate certificate, in order, with all of
/// its bytes.
pub proof fn law_intermediates_are_handed_on_whole(
    intermediates: &[Certificate],
    chain: Vec<&[u8]>,
)
    requires
        call_ensures(intermediate_chain, (intermediates,), chain),
    ensures
        chain@.len() == intermediates@.len(),
        forall|i: int|
            0 <= i < intermediates@.len() ==> (#[trigger] chain@[i])@.len()
                == intermediates@[i].0@.len(),
        forall|i: int, j: int|
            0 <= i < intermediates@.len() && 0 <= j < intermediates@[i].0@.len() ==> (
            #[trigger] chain@[i]@[j]) == intermediates@[i].0@[j],
{
}

/// What the outside calls are said to be given are the lists that they are
/// given, element by element.
pub proof fn law_outside_lists_are_read_element_by_element(
    algorithms: Seq<&webpki::SignatureAlgorithm>,
    anchors: Seq<webpki::TrustAnchor<'_>>,
    slices: Seq<&[u8]>,
)
    ensures
        pki::algorithm_ids(algorithms).len() == algorithms.len(),
        forall|i: int|
            0 <= i < algorithms.len() ==> #[trigger] pki::algorithm_ids(algorithms)[i]
                == pki::algorithm_id(*algorithms[i]),
        pki::trust_anchor_views(anchors).len() == anchors.len(),
        forall|i: int|
            0 <= i < anchors.len() ==> #[trigger] pki::trust_anchor_views(anchors)[i]
                == pki::trust_anchor_view(anchors[i]),
        pki::byte_strings(slices).len() == slices.len(),
        forall|i: int|
            0 <= i < slices.len() ==> #[trigger] pki::byte_strings(slices)[i] == slices[i]@,
{
}

/// Path building is handed every trust anchor of a store, in order, as the
/// anchor itself would be handed over.
pub proof fn law_roots_are_handed_on_whole(
    roots: &RootCertStore,
    handed: Vec<webpki::TrustAnchor<'_>>,
)
    requires
        call_ensures(trust_roots, (roots,), handed),
    ensures
        handed@.len() == roots.roots@.len(),
        forall|i: int, alone: webpki::TrustAnchor<'_>|
            0 <= i < roots.roots@.len() && #[trigger] call_ensures(
                OwnedTrustAnchor::to_trust_anchor,
                (&roots.roots@[i],),
                alone,
            ) ==> pki::trust_anchor_view(handed@[i]) == pki::trust_anchor_view(alone),
{
    let views = pki::trust_anchor_views(handed@);
    assert(views.len() == roots@.len());
    assert forall|i: int, alone: webpki::TrustAnchor<'_>|
        0 <= i < roots.roots@.len() && #[trigger] call_ensures(
            OwnedTrustAnchor::to_trust_anchor,
            (&roots.roots@[i],),
            alone,
        ) implies pki::trust_anchor_view(handed@[i]) == pki::trust_anchor_view(alone) by {
        assert(views[i] == roots@[i]);
    }
}

/// A trust anchor is handed to path building with exactly the subject, key and
/// name constraints that it was made of.
pub proof fn law_anchor_keeps_what_it_was_made_of(
    subject: Vec<u8>,
    spki: Vec<u8>,
    name_constraints: Option<Vec<u8>>,
    anchor: OwnedTrustAnchor,
    handed: webpki::TrustAnchor<'_>,
)
    requires
        call_ensures(
            OwnedTrustAnchor::from_subject_spki_name_constraints,
            (subject, spki, name_constraints),
            anchor,
        ),
        call_ensures(OwnedTrustAnchor::to_trust_anchor, (&anchor,), handed),
    ensures
        pki::trust_anchor_view(handed).subject == subject@,
        pki::trust_anchor_view(handed).spki == spki@,
        pki::trust_anchor_view(handed).name_constraints is Some <==> name_constraints is Some,
        name_constraints matches Some(constraints) ==> pki::trust_anchor_view(
            handed,
        ).name_constraints == Some(constraints@),
{
}

/// The mechanisms that certificates may be signed with are all twelve, each
/// listed once.
pub proof fn law_all_mechanisms_are_supported(
    listed: Vec<&'static webpki::SignatureAlgorithm>,
    algorithm: PkiAlgorithm,
)
    requires
        call_ensures(supported_sig_algs, (), listed),
    ensures
        listed@.len() == 12,
        exists|i: int| 0 <= i < listed@.len() && #[trigger] pki::algorithm_id(*listed@[i])
            == algorithm,
        forall|i: int, j: int|
            0 <= i < j < listed@.len() ==> #[trigger] pki::algorithm_id(*listed@[i])
                != #[trigger] pki::algorithm_id(*listed@[j]),
{
    let ids = pki::algorithm_ids(listed@);
    assert(ids.len() == 12);
    assert forall|i: int| 0 <= i < 12 implies ids[i] == #[trigger] pki::algorithm_id(
        *listed@[i],
    ) by {}
    let list = handshake::supported_algorithms();
    let k = choose|k: int| 0 <= k < 12 && #[trigger] list[k] == algorithm;
    assert(list[0] == algorithm || list[1] == algorithm || list[2] == algorithm || list[3]
        == algorithm || list[4] == algorithm || list[5] == algorithm || list[6] == algorithm
        || list[7] == algorithm || list[8] == algorithm || list[9] == algorithm || list[10]
        == algorithm || list[11] == algorithm);
    assert(pki::algorithm_id(*listed@[k]) == algorithm);
}

// ---------------------------------------------------------------------------
// Failures
// ---------------------------------------------------------------------------

/// How each failure of certificate processing is reported.
pub proof fn law_reports(error: PkiError, reported: CertificateError)
    requires
        call_ensures(certificate_error, (error,), reported),
    ensures
        reported is BadEncoding <==> error is BadDer || error is BadDerTime,
        reported is NotValidYet <==> error is CertNotValidYet,
        reported is Expired <==> error is CertExpired || error is InvalidCertValidity,
        reported is UnknownIssuer <==> error is UnknownIssuer,
        reported is NotValidForName <==> error is CertNotValidForName,
        reported is BadSignature <==> error is InvalidSignatureForPublicKey
            || error is UnsupportedSignatureAlgorithm
            || error is UnsupportedSignatureAlgorithmForPublicKey,
        reported is Other <==> error is Other,
        error matches PkiError::Other(other) ==> reported == CertificateError::Other(other),
{
}

/// A failure of an outside call is an invalid certificate, reported as its kind
/// is reported; one of no particular kind is kept as it came.
pub proof fn law_outside_failures(
    error: webpki::Error,
    result: TlsError,
    by_kind: CertificateError,
)
    requires
        call_ensures(pki_error, (error,), result),
        call_ensures(certificate_error, (pki::pki_error_kind(error),), by_kind),
    ensures
        result == TlsError::InvalidCertificate(by_kind),
        pki::pki_error_kind(error) is Other ==> result == TlsError::InvalidCertificate(
            CertificateError::Other(error),
        ),
{
}

/// Outcomes are reported one for one: success as success, a failure as that
/// failure.
pub proof fn law_outcomes(
    outcome: Result<(), PkiError>,
    result: Result<(), TlsError>,
    told_apart: Result<(), PkiError>,
    outside: Result<(), webpki::Error>,
)
    requires
        call_ensures(pki_outcome, (outcome,), result),
        call_ensures(pki_error::classify_outcome, (outside,), told_apart),
    ensures
        result is Ok <==> outcome is Ok,
        forall|error: PkiError, reported: CertificateError|
            outcome == Err::<(), _>(error) && #[trigger] call_ensures(
                certificate_error,
                (error,),
                reported,
            ) ==> result == Err::<(), _>(TlsError::InvalidCertificate(reported)),
        told_apart is Ok <==> outside is Ok,
        outside matches Err(error) ==> told_apart == Err::<(), _>(pki::pki_error_kind(error)),
{
}

/// A certificate parses exactly where the outside crate can parse all of its
/// bytes, and stands for all of them.
pub proof fn law_parsing(
    certificate: &Certificate,
    parsed: Result<ParsedCertificate<'_>, TlsError>,
)
    requires
        call_ensures(ParsedCertificate::try_from, (certificate,), parsed),
    ensures
        parsed is Ok <==> pki::end_entity_parse(certificate.0@) is Ok,
        parsed matches Ok(cert) ==> pki::end_entity_der(cert.0) == certificate.0@,
        forall|error: webpki::Error, reported: TlsError|
            pki::end_entity_parse(certificate.0@) == Err::<(), _>(error)
                && #[trigger] call_ensures(pki_error, (error,), reported) ==> (parsed matches Err(
                e,
            ) && e == reported),
{
}

// ---------------------------------------------------------------------------
// Certificates of servers
// ---------------------------------------------------------------------------

/// Whether a server certificate chains to a root is what path building says of
/// the certificate, all of the mechanisms, all of the roots, all of the
/// certificates that were sent along, and the second that it is.
pub proof fn law_server_chain(
    cert: &ParsedCertificate<'_>,
    roots: &RootCertStore,
    intermediates: &[Certificate],
    now: SystemTime,
    result: Result<(), TlsError>,
    anchors: Seq<TrustAnchorView>,
    chain: Seq<Seq<u8>>,
)
    requires
        call_ensures(
            verify_server_cert_signed_by_trust_anchor,
            (cert, roots, intermediates, now),
            result,
        ),
        anchors.len() == roots.roots@.len(),
        forall|i: int| 0 <= i < anchors.len() ==> #[trigger] anchors[i] == roots.roots@[i]@,
        chain.len() == intermediates@.len(),
        forall|i: int| 0 <= i < chain.len() ==> #[trigger] chain[i] == intermediates@[i].0@,
    ensures
        pki::unix_seconds(now) is None ==> result == Err::<(), _>(
            TlsError::FailedToGetCurrentTime,
        ),
        pki::unix_seconds(now) matches Some(time) ==> {
            let outcome = pki::server_chain_check(
                pki::end_entity_der(cert.0),
                seq![
                    PkiAlgorithm::ECDSA_P256_SHA256,
                    PkiAlgorithm::ECDSA_P256_SHA384,
                    PkiAlgorithm::ECDSA_P384_SHA256,
                    PkiAlgorithm::ECDSA_P384_SHA384,
                    PkiAlgorithm::ED25519,
                    PkiAlgorithm::RSA_PSS_2048_8192_SHA256_LEGACY_KEY,
                    PkiAlgorithm::RSA_PSS_2048_8192_SHA384_LEGACY_KEY,
                    PkiAlgorithm::RSA_PSS_2048_8192_SHA512_LEGACY_KEY,
                    PkiAlgorithm::RSA_PKCS1_2048_8192_SHA256,
                    PkiAlgorithm::RSA_PKCS1_2048_8192_SHA384,
                    PkiAlgorithm::RSA_PKCS1_2048_8192_SHA512,
                    PkiAlgorithm::RSA_PKCS1_3072_8192_SHA384,
                ],
                anchors,
                chain,
                time,
            );
            &&& result is Ok <==> outcome is Ok
            &&& forall|error: webpki::Error, reported: TlsError|
                outcome == Err::<(), _>(error) && #[trigger] call_ensures(
                    pki_error,
                    (error,),
                    reported,
                ) ==> result == Err::<(), _>(reported)
        },
{
    assert(anchors =~= roots@);
    assert(chain =~= key::encodings(intermediates@));
}

/// Two calls with the same bytes in the same places come to the same result:
/// only the bytes of the certificates, the roots and the time count.
pub proof fn law_server_chain_depends_on_bytes_alone(
    cert: &ParsedCertificate<'_>,
    roots: &RootCertStore,
    now: SystemTime,
    first: &[Certificate],
    second: &[Certificate],
    first_result: Result<(), TlsError>,
    second_result: Result<(), TlsError>,
)
    requires
        first@.len() == second@.len(),
        forall|i: int| 0 <= i < first@.len() ==> (#[trigger] first@[i]).0@ == second@[i].0@,
        call_ensures(
            verify_server_cert_signed_by_trust_anchor,
            (cert, roots, first, now),
            first_result,
        ),
        call_ensures(
            verify_server_cert_signed_by_trust_anchor,
            (cert, roots, second, now),
            second_result,
        ),
    ensures
        first_result == second_result,
{
    assert(key::encodings(first@) =~= key::encodings(second@));
}

/// A certificate is valid for the name of a server as the outside crate says: a
/// DNS name has to be well formed, and is compared as it is written; an IP
/// address is compared by its octets.
pub proof fn law_server_name(
    cert: &ParsedCertificate<'_>,
    server_name: &ServerName,
    result: Result<(), TlsError>,
    name: SubjectName,
)
    requires
        call_ensures(verify_server_name, (cert, server_name), result),
        match *server_name {
            ServerName::DnsName(DnsName(text)) => name == SubjectName::DnsName(text@),
            ServerName::IpAddress(IpAddr::V4(octets)) => name == SubjectName::IpAddress(octets@),
            ServerName::IpAddress(IpAddr::V6(octets)) => name == SubjectName::IpAddress(octets@),
        },
    ensures
        *server_name matches ServerName::DnsName(DnsName(text)) && !pki::is_dns_name(text@)
            ==> result == Err::<(), _>(
            TlsError::InvalidCertificate(CertificateError::BadEncoding),
        ),
        (*server_name matches ServerName::DnsName(DnsName(text)) ==> pki::is_dns_name(text@))
            ==> {
            let outcome = pki::subject_name_check(pki::end_entity_der(cert.0), name);
            &&& result is Ok <==> outcome is Ok
            &&& forall|error: webpki::Error, reported: TlsError|
                outcome == Err::<(), _>(error) && #[trigger] call_ensures(
                    pki_error,
                    (error,),
                    reported,
                ) ==> result == Err::<(), _>(reported)
        },
{
}

/// Verifying a server certificate is parsing it, verifying its chain against the
/// roots that the verifier was made with, and verifying its name; the first of
/// the three to fail gives the answer.
pub proof fn law_server_cert(
    roots: RootCertStore,
    verifier: WebPkiVerifier,
    end_entity: &Certificate,
    intermediates: &[Certificate],
    server_name: &ServerName,
    ocsp_response: &[u8],
    now: SystemTime,
    result: Result<ServerCertVerified, TlsError>,
    parsed: Result<ParsedCertificate<'_>, TlsError>,
)
    requires
        call_ensures(WebPkiVerifier::new, (roots,), verifier),
        call_ensures(
            WebPkiVerifier::verify_server_cert,
            (&verifier, end_entity, intermediates, server_name, ocsp_response, now),
            result,
        ),
        call_ensures(ParsedCertificate::try_from, (end_entity,), parsed),
    ensures
        parsed matches Err(error) ==> (result matches Err(e) && e == error),
        forall|chained: Result<(), TlsError>, named: Result<(), TlsError>|
            parsed is Ok && #[trigger] call_ensures(
                verify_server_cert_signed_by_trust_anchor,
                (&parsed->Ok_0, &roots, intermediates, now),
                chained,
            ) && #[trigger] call_ensures(verify_server_name, (&parsed->Ok_0, server_name), named)
                ==> {
                &&& result is Ok <==> chained is Ok && named is Ok
                &&& chained is Err ==> result is Err && result->Err_0 == chained->Err_0
                &&& chained is Ok && named is Err ==> result is Err && result->Err_0
                    == named->Err_0
            },
{
}

/// The OCSP response makes no difference.
pub proof fn law_ocsp_response_is_ignored(
    verifier: &WebPkiVerifier,
    end_entity: &Certificate,
    intermediates: &[Certificate],
    server_name: &ServerName,
    now: SystemTime,
    first_response: &[u8],
    second_response: &[u8],
    first: Result<ServerCertVerified, TlsError>,
    second: Result<ServerCertVerified, TlsError>,
)
    requires
        call_ensures(
            WebPkiVerifier::verify_server_cert,
            (verifier, end_entity, intermediates, server_name, first_response, now),
            first,
        ),
        call_ensures(
            WebPkiVerifier::verify_server_cert,
            (verifier, end_entity, intermediates, server_name, second_response, now),
            second,
        ),
    ensures
        first is Ok <==> second is Ok,
        first is Err ==> first->Err_0 == second->Err_0,
{
}

// ---------------------------------------------------------------------------
// Certificates of clients
// ---------------------------------------------------------------------------

/// Verifying a client certificate is parsing it and asking path building about
/// it, all of the mechanisms, all of the roots that the verifier was made with,
/// all of the certificates that were sent along, and the second that it is.
pub proof fn law_client_cert(
    roots: RootCertStore,
    verifier: AllowAnyAuthenticatedClient,
    end_entity: &Certificate,
    intermediates: &[Certificate],
    now: SystemTime,
    result: Result<ClientCertVerified, TlsError>,
    anchors: Seq<TrustAnchorView>,
    chain: Seq<Seq<u8>>,
)
    requires
        call_ensures(AllowAnyAuthenticatedClient::new, (roots,), verifier),
        call_ensures(
            AllowAnyAuthenticatedClient::verify_client_cert,
            (&verifier, end_entity, intermediates, now),
            result,
        ),
        anchors.len() == roots.roots@.len(),
        forall|i: int| 0 <= i < anchors.len() ==> #[trigger] anchors[i] == roots.roots@[i]@,
        chain.len() == intermediates@.len(),
        forall|i: int| 0 <= i < chain.len() ==> #[trigger] chain[i] == intermediates@[i].0@,
    ensures
        forall|error: webpki::Error, reported: TlsError|
            pki::end_entity_parse(end_entity.0@) == Err::<(), _>(error)
                && #[trigger] call_ensures(pki_error, (error,), reported) ==> result is Err
                && result->Err_0 == reported,
        pki::end_entity_parse(end_entity.0@) is Ok && pki::unix_seconds(now) is None
            ==> result is Err && result->Err_0 == TlsError::FailedToGetCurrentTime,
        result is Ok ==> pki::end_entity_parse(end_entity.0@) is Ok && pki::unix_seconds(
            now,
        ) is Some,
        pki::end_entity_parse(end_entity.0@) is Ok && pki::unix_seconds(now) is Some ==> {
            let outcome = pki::client_chain_check(
                end_entity.0@,
                seq![
                    PkiAlgorithm::ECDSA_P256_SHA256,
                    PkiAlgorithm::ECDSA_P256_SHA384,
                    PkiAlgorithm::ECDSA_P384_SHA256,
                    PkiAlgorithm::ECDSA_P384_SHA384,
                    PkiAlgorithm::ED25519,
                    PkiAlgorithm::RSA_PSS_2048_8192_SHA256_LEGACY_KEY,
                    PkiAlgorithm::RSA_PSS_2048_8192_SHA384_LEGACY_KEY,
                    PkiAlgorithm::RSA_PSS_2048_8192_SHA512_LEGACY_KEY,
                    PkiAlgorithm::RSA_PKCS1_2048_8192_SHA256,
                    PkiAlgorithm::RSA_PKCS1_2048_8192_SHA384,
                    PkiAlgorithm::RSA_PKCS1_2048_8192_SHA512,
                    PkiAlgorithm::RSA_PKCS1_3072_8192_SHA384,
                ],
                anchors,
                chain,
                pki::unix_seconds(now).unwrap(),
            );
            &&& result is Ok <==> outcome is Ok
            &&& forall|error: webpki::Error, reported: TlsError|
                outcome == Err::<(), _>(error) && #[trigger] call_ensures(
                    pki_error,
                    (error,),
                    reported,
                ) ==> result is Err && result->Err_0 == reported
        },
{
    assert(anchors =~= roots@);
    assert(chain =~= key::encodings(intermediates@));
}

/// Made with the same roots, the verifier that allows anonymous clients comes to
/// the same result on a certificate, and names the same subjects, as the one that
/// does not.
pub proof fn law_optional_verifier_treats_certs_alike(
    roots: RootCertStore,
    optional: AllowAnyAnonymousOrAuthenticatedClient,
    mandatory: AllowAnyAuthenticatedClient,
    end_entity: &Certificate,
    intermediates: &[Certificate],
    now: SystemTime,
    optional_result: Result<ClientCertVerified, TlsError>,
    mandatory_result: Result<ClientCertVerified, TlsError>,
    optional_subjects: &[DistinguishedName],
    mandatory_subjects: &[DistinguishedName],
)
    requires
        call_ensures(AllowAnyAnonymousOrAuthenticatedClient::new, (roots,), optional),
        call_ensures(AllowAnyAuthenticatedClient::new, (roots,), mandatory),
        call_ensures(
            AllowAnyAnonymousOrAuthenticatedClient::verify_client_cert,
            (&optional, end_entity, intermediates, now),
            optional_result,
        ),
        call_ensures(
            AllowAnyAuthenticatedClient::verify_client_cert,
            (&mandatory, end_entity, intermediates, now),
            mandatory_result,
        ),
        call_ensures(
            AllowAnyAnonymousOrAuthenticatedClient::client_auth_root_subjects,
            (&optional,),
            optional_subjects,
        ),
        call_ensures(
            AllowAnyAuthenticatedClient::client_auth_root_subjects,
            (&mandatory,),
            mandatory_subjects,
        ),
    ensures
        optional_result is Ok <==> mandatory_result is Ok,
        optional_result is Err ==> optional_result->Err_0 == mandatory_result->Err_0,
        optional_subjects@.len() == mandatory_subjects@.len(),
        forall|i: int|
            0 <= i < optional_subjects@.len() ==> (#[trigger] optional_subjects@[i]).0@
                == mandatory_subjects@[i].0@,
{
}

/// Clients are told the subject of every root that the verifier was made with,
/// in order.
pub proof fn law_every_root_is_named(
    roots: RootCertStore,
    verifier: AllowAnyAuthenticatedClient,
    subjects: &[DistinguishedName],
)
    requires
        call_ensures(AllowAnyAuthenticatedClient::new, (roots,), verifier),
        call_ensures(
            AllowAnyAuthenticatedClient::client_auth_root_subjects,
            (&verifier,),
            subjects,
        ),
    ensures
        subjects@.len() == roots.roots@.len(),
        forall|i: int, subject: &DistinguishedName|
            0 <= i < roots.roots@.len() && #[trigger] call_ensures(
                OwnedTrustAnchor::subject,
                (&roots.roots@[i],),
                subject,
            ) ==> subjects@[i].0@ == subject.0@,
{
    assert forall|i: int, subject: &DistinguishedName|
        0 <= i < roots.roots@.len() && #[trigger] call_ensures(
            OwnedTrustAnchor::subject,
            (&roots.roots@[i],),
            subject,
        ) implies subjects@[i].0@ == subject.0@ by {
        assert(roots@[i] == roots.roots@[i]@);
    }
}

/// Who is asked for a certificate, and who has to send one.
pub proof fn law_who_authenticates(
    optional: &AllowAnyAnonymousOrAuthenticatedClient,
    mandatory: &AllowAnyAuthenticatedClient,
    off: &NoClientAuth,
    asked: bool,
    demanded: bool,
)
    ensures
        call_ensures(
            AllowAnyAuthenticatedClient::offer_client_auth,
            (mandatory,),
            asked,
        ) ==> asked,
        call_ensures(
            AllowAnyAuthenticatedClient::client_auth_mandatory,
            (mandatory,),
            demanded,
        ) ==> demanded,
        call_ensures(
            AllowAnyAnonymousOrAuthenticatedClient::offer_client_auth,
            (optional,),
            asked,
        ) ==> asked,
        call_ensures(
            AllowAnyAnonymousOrAuthenticatedClient::client_auth_mandatory,
            (optional,),
            demanded,
        ) ==> !demanded,
        call_ensures(NoClientAuth::offer_client_auth, (off,), asked) ==> !asked,
        call_ensures(NoClientAuth::client_auth_mandatory, (off,), demanded) ==> !demanded,
{
}

/// A verifier that acts as another one does answers as that one may, whichever
/// method is called.
pub proof fn law_acting_as<O: ClientCertVerifier + ?Sized, V: ClientCertVerifier + ?Sized>(
    other: &O,
    verifier: &V,
)
    requires
        client::acts_as(other, verifier),
    ensures
        other.verifies_clients() == verifier.verifies_clients(),
        forall|r: bool| #[trigger]
            call_ensures(O::offer_client_auth, (other,), r) ==> call_ensures(
                V::offer_client_auth,
                (verifier,),
                r,
            ),
        forall|r: bool| #[trigger]
            call_ensures(O::client_auth_mandatory, (other,), r) ==> call_ensures(
                V::client_auth_mandatory,
                (verifier,),
                r,
            ),
        forall|r: &[DistinguishedName]| #[trigger]
            call_ensures(O::client_auth_root_subjects, (other,), r) ==> call_ensures(
                V::client_auth_root_subjects,
                (verifier,),
                r,
            ),
        forall|e: &Certificate, i: &[Certificate], n: SystemTime, r: Result<ClientCertVerified, TlsError>| #[trigger]
            call_ensures(O::verify_client_cert, (other, e, i, n), r) ==> call_ensures(
                V::verify_client_cert,
                (verifier, e, i, n),
                r,
            ),
        forall|m: &[u8], c: &Certificate, d: &DigitallySignedStruct, r: Result<HandshakeSignatureValid, TlsError>| #[trigger]
            call_ensures(O::verify_tls12_signature, (other, m, c, d), r) ==> call_ensures(
                V::verify_tls12_signature,
                (verifier, m, c, d),
                r,
            ),
        forall|m: &[u8], c: &Certificate, d: &DigitallySignedStruct, r: Result<HandshakeSignatureValid, TlsError>| #[trigger]
            call_ensures(O::verify_tls13_signature, (other, m, c, d), r) ==> call_ensures(
                V::verify_tls13_signature,
                (verifier, m, c, d),
                r,
            ),
        forall|r: Vec<SignatureScheme>| #[trigger]
            call_ensures(O::supported_verify_schemes, (other,), r) ==> call_ensures(
                V::supported_verify_schemes,
                (verifier,),
                r,
            ),
{
}

/// A verifier that turns client authentication off is the only one that cannot
/// be asked about clients.
pub proof fn law_who_can_be_asked(
    optional: &AllowAnyAnonymousOrAuthenticatedClient,
    mandatory: &AllowAnyAuthenticatedClient,
    off: &NoClientAuth,
)
    ensures
        optional.verifies_clients(),
        mandatory.verifies_clients(),
        !off.verifies_clients(),
{
}

// ---------------------------------------------------------------------------
// Handshake signatures
// ---------------------------------------------------------------------------

/// The mechanisms that are tried for each TLS 1.2 signature scheme, in order.
/// Every other scheme is refused as one that was not offered.
pub proof fn law_mechanisms_of_tls12(
    scheme: SignatureScheme,
    found: Result<Vec<PkiAlgorithm>, TlsError>,
)
    requires
        call_ensures(convert_scheme, (scheme,), found),
    ensures
        found is Ok <==> scheme is ECDSA_NISTP256_SHA256 || scheme is ECDSA_NISTP384_SHA384
            || scheme is ED25519 || scheme is RSA_PKCS1_SHA256 || scheme is RSA_PKCS1_SHA384
            || scheme is RSA_PKCS1_SHA512 || scheme is RSA_PSS_SHA256 || scheme is RSA_PSS_SHA384
            || scheme is RSA_PSS_SHA512,
        found matches Err(error) ==> error == TlsError::PeerMisbehaved(
            PeerMisbehaved::SignedHandshakeWithUnadvertisedSigScheme,
        ),
        scheme is ECDSA_NISTP256_SHA256 ==> found->Ok_0@ == seq![
            PkiAlgorithm::ECDSA_P256_SHA256,
            PkiAlgorithm::ECDSA_P384_SHA256,
        ],
        scheme is ECDSA_NISTP384_SHA384 ==> found->Ok_0@ == seq![
            PkiAlgorithm::ECDSA_P256_SHA384,
            PkiAlgorithm::ECDSA_P384_SHA384,
        ],
        scheme is ED25519 ==> found->Ok_0@ == seq![PkiAlgorithm::ED25519],
        scheme is RSA_PKCS1_SHA256 ==> found->Ok_0@ == seq![
            PkiAlgorithm::RSA_PKCS1_2048_8192_SHA256,
        ],
        scheme is RSA_PKCS1_SHA384 ==> found->Ok_0@ == seq![
            PkiAlgorithm::RSA_PKCS1_2048_8192_SHA384,
        ],
        scheme is RSA_PKCS1_SHA512 ==> found->Ok_0@ == seq![
            PkiAlgorithm::RSA_PKCS1_2048_8192_SHA512,
        ],
        scheme is RSA_PSS_SHA256 ==> found->Ok_0@ == seq![
            PkiAlgorithm::RSA_PSS_2048_8192_SHA256_LEGACY_KEY,
        ],
        scheme is RSA_PSS_SHA384 ==> found->Ok_0@ == seq![
            PkiAlgorithm::RSA_PSS_2048_8192_SHA384_LEGACY_KEY,
        ],
        scheme is RSA_PSS_SHA512 ==> found->Ok_0@ == seq![
            PkiAlgorithm::RSA_PSS_2048_8192_SHA512_LEGACY_KEY,
        ],
{
}

/// The one mechanism of each TLS 1.3 signature scheme.  Every other scheme is
/// refused as one that was not offered.
pub proof fn law_mechanism_of_tls13(
    scheme: SignatureScheme,
    found: Result<PkiAlgorithm, TlsError>,
)
    requires
        call_ensures(convert_alg_tls13, (scheme,), found),
    ensures
        found is Ok <==> scheme is ECDSA_NISTP256_SHA256 || scheme is ECDSA_NISTP384_SHA384
            || scheme is ED25519 || scheme is RSA_PSS_SHA256 || scheme is RSA_PSS_SHA384
            || scheme is RSA_PSS_SHA512,
        found matches Err(error) ==> error == TlsError::PeerMisbehaved(
            PeerMisbehaved::SignedHandshakeWithUnadvertisedSigScheme,
        ),
        scheme is ECDSA_NISTP256_SHA256 ==> found->Ok_0 is ECDSA_P256_SHA256,
        scheme is ECDSA_NISTP384_SHA384 ==> found->Ok_0 is ECDSA_P384_SHA384,
        scheme is ED25519 ==> found->Ok_0 is ED25519,
        scheme is RSA_PSS_SHA256 ==> found->Ok_0 is RSA_PSS_2048_8192_SHA256_LEGACY_KEY,
        scheme is RSA_PSS_SHA384 ==> found->Ok_0 is RSA_PSS_2048_8192_SHA384_LEGACY_KEY,
        scheme is RSA_PSS_SHA512 ==> found->Ok_0 is RSA_PSS_2048_8192_SHA512_LEGACY_KEY,
{
}

/// Another mechanism is tried exactly where one does not apply to the key.
pub proof fn law_trying_on(outcome: Result<(), PkiError>, tried_on: bool)
    requires
        call_ensures(handshake::try_next, (&outcome,), tried_on),
    ensures
        tried_on <==> (outcome matches Err(error)
            && error is UnsupportedSignatureAlgorithmForPublicKey),
{
}

/// The first mechanism that applies to the key decides, and is asked about all
/// of the message and all of the signature.
pub proof fn law_first_mechanism_that_applies_decides(
    cert: &ParsedCertificate<'_>,
    algorithms: &[PkiAlgorithm],
    message: &[u8],
    sig: &[u8],
    outcome: Result<(), PkiError>,
    first: int,
)
    requires
        call_ensures(verify_sig_using_any_alg, (cert, algorithms, message, sig), outcome),
        0 <= first < algorithms@.len(),
        forall|i: int|
            0 <= i < first ==> {
                &&& #[trigger] pki::signature_check(
                    pki::end_entity_der(cert.0),
                    algorithms@[i],
                    message@,
                    sig@,
                ) matches Err(error)
                &&& pki::pki_error_kind(error) is UnsupportedSignatureAlgorithmForPublicKey
            },
    ensures
        pki::signature_check(
            pki::end_entity_der(cert.0),
            algorithms@[first],
            message@,
            sig@,
        ) is Ok ==> outcome is Ok,
        pki::signature_check(
            pki::end_entity_der(cert.0),
            algorithms@[first],
            message@,
            sig@,
        ) matches Err(error) ==> !(pki::pki_error_kind(
            error,
        ) is UnsupportedSignatureAlgorithmForPublicKey) ==> outcome == Err::<(), _>(
            pki::pki_error_kind(error),
        ),
{
    let outcomes = handshake::signature_outcomes(cert@, algorithms@, message@, sig@);
    assert forall|i: int| 0 <= i < first implies handshake::is_inapplicable(
        #[trigger] outcomes[i],
    ) by {
        assert(pki::signature_check(cert@, algorithms@[i], message@, sig@) is Err);
    }
    if !handshake::is_inapplicable(outcomes[first]) {
        handshake::lemma_first_applicable_decides(outcomes, first);
    }
}

/// If no mechanism applies to the key, that is what is wrong; so it is where
/// there is none to try.
pub proof fn law_no_mechanism_applies(
    cert: &ParsedCertificate<'_>,
    algorithms: &[PkiAlgorithm],
    message: &[u8],
    sig: &[u8],
    outcome: Result<(), PkiError>,
)
    requires
        call_ensures(verify_sig_using_any_alg, (cert, algorithms, message, sig), outcome),
        forall|i: int|
            0 <= i < algorithms@.len() ==> {
                &&& #[trigger] pki::signature_check(
                    pki::end_entity_der(cert.0),
                    algorithms@[i],
                    message@,
                    sig@,
                ) matches Err(error)
                &&& pki::pki_error_kind(error) is UnsupportedSignatureAlgorithmForPublicKey
            },
    ensures
        outcome == Err::<(), _>(PkiError::UnsupportedSignatureAlgorithmForPublicKey),
{
    let outcomes = handshake::signature_outcomes(cert@, algorithms@, message@, sig@);
    assert forall|i: int| 0 <= i < outcomes.len() implies handshake::is_inapplicable(
        #[trigger] outcomes[i],
    ) by {
        assert(pki::signature_check(cert@, algorithms@[i], message@, sig@) is Err);
    }
    handshake::lemma_none_applicable(outcomes);
}

/// Verifying a TLS 1.2 signature is looking up the mechanisms of its scheme,
/// parsing the certificate, and trying the mechanisms on all of the message and
/// all of the signature; the first of the three to fail gives the answer.
pub proof fn law_tls12_signature(
    message: &[u8],
    cert: &Certificate,
    dss: &DigitallySignedStruct,
    result: Result<HandshakeSignatureValid, TlsError>,
    found: Result<Vec<PkiAlgorithm>, TlsError>,
    parsed: Result<ParsedCertificate<'_>, TlsError>,
)
    requires
        call_ensures(verify_signed_struct, (message, cert, dss), result),
        call_ensures(convert_scheme, (dss.scheme,), found),
        call_ensures(ParsedCertificate::try_from, (cert,), parsed),
    ensures
        found matches Err(error) ==> (result matches Err(e) && e == error),
        found is Ok && parsed is Err ==> result is Err && result->Err_0 == parsed->Err_0,
        forall|
            algorithms: &[PkiAlgorithm],
            sig: &[u8],
            outcome: Result<(), PkiError>,
            reported: Result<(), TlsError>,
        |
            found is Ok && parsed is Ok && algorithms@ == found->Ok_0@ && sig@ == dss.sig.0@
                && #[trigger] call_ensures(
                verify_sig_using_any_alg,
                (&parsed->Ok_0, algorithms, message, sig),
                outcome,
            ) && #[trigger] call_ensures(pki_outcome, (outcome,), reported) ==> {
                &&& result is Ok <==> outcome is Ok
                &&& reported is Err ==> result is Err && result->Err_0 == reported->Err_0
            },
{
}

/// A TLS 1.3 signature is valid exactly where its scheme may be used there, the
/// certificate parses, and the one mechanism of the scheme accepts all of the
/// signature for all of the message; the first of the three to fail gives the
/// answer.
pub proof fn law_tls13_signature(
    message: &[u8],
    cert: &Certificate,
    dss: &DigitallySignedStruct,
    result: Result<HandshakeSignatureValid, TlsError>,
    found: Result<PkiAlgorithm, TlsError>,
)
    requires
        call_ensures(verify_tls13, (message, cert, dss), result),
        call_ensures(convert_alg_tls13, (dss.scheme,), found),
    ensures
        result is Ok <==> {
            &&& found is Ok
            &&& pki::end_entity_parse(cert.0@) is Ok
            &&& pki::signature_check(cert.0@, found->Ok_0, message@, dss.sig.0@) is Ok
        },
        found matches Err(error) ==> (result matches Err(e) && e == error),
        forall|error: webpki::Error, reported: TlsError|
            found is Ok && pki::end_entity_parse(cert.0@) == Err::<(), _>(error)
                && #[trigger] call_ensures(pki_error, (error,), reported) ==> result is Err
                && result->Err_0 == reported,
        forall|error: webpki::Error, reported: TlsError|
            found is Ok && pki::end_entity_parse(cert.0@) is Ok && pki::signature_check(
                cert.0@,
                found->Ok_0,
                message@,
                dss.sig.0@,
            ) == Err::<(), _>(error) && #[trigger] call_ensures(pki_error, (error,), reported)
                ==> result is Err && result->Err_0 == reported,
{
}

/// What is offered: these schemes, the most preferred first.
pub proof fn law_offered_schemes(schemes: Vec<SignatureScheme>)
    requires
        call_ensures(WebPkiVerifier::verification_schemes, (), schemes),
    ensures
        schemes@ == seq![
            SignatureScheme::ECDSA_NISTP384_SHA384,
            SignatureScheme::ECDSA_NISTP256_SHA256,
            SignatureScheme::ED25519,
            SignatureScheme::RSA_PSS_SHA512,
            SignatureScheme::RSA_PSS_SHA384,
            SignatureScheme::RSA_PSS_SHA256,
            SignatureScheme::RSA_PKCS1_SHA512,
            SignatureScheme::RSA_PKCS1_SHA384,
            SignatureScheme::RSA_PKCS1_SHA256,
        ],
{
}

/// A scheme is offered exactly where there is a mechanism to verify it by.
pub proof fn law_offered_is_what_can_be_verified(
    schemes: Vec<SignatureScheme>,
    scheme: SignatureScheme,
    found: Result<Vec<PkiAlgorithm>, TlsError>,
)
    requires
        call_ensures(WebPkiVerifier::verification_schemes, (), schemes),
        call_ensures(convert_scheme, (scheme,), found),
    ensures
        found is Ok <==> schemes@.contains(scheme),
        found matches Ok(algorithms) ==> algorithms@.len() > 0,
{
    server::lemma_offered_schemes_are_verifiable(scheme);
}

/// The verifiers of this library verify signatures as the functions by
/// themselves do, and offer the same schemes.
pub proof fn law_verifiers_verify_signatures_alike(
    server: &WebPkiVerifier,
    mandatory: &AllowAnyAuthenticatedClient,
    optional: &AllowAnyAnonymousOrAuthenticatedClient,
    off: &NoClientAuth,
    message: &[u8],
    cert: &Certificate,
    dss: &DigitallySignedStruct,
    tls12: Result<HandshakeSignatureValid, TlsError>,
    tls13: Result<HandshakeSignatureValid, TlsError>,
    schemes: Vec<SignatureScheme>,
)
    requires
        call_ensures(verify_signed_struct, (message, cert, dss), tls12),
        call_ensures(verify_tls13, (message, cert, dss), tls13),
        call_ensures(WebPkiVerifier::verification_schemes, (), schemes),
    ensures
        forall|r: Result<HandshakeSignatureValid, TlsError>|
            (#[trigger] call_ensures(
                WebPkiVerifier::verify_tls12_signature,
                (server, message, cert, dss),
                r,
            )) ==> (r is Ok <==> tls12 is Ok) && (r is Err ==> r->Err_0 == tls12->Err_0),
        forall|r: Result<HandshakeSignatureValid, TlsError>|
            (#[trigger] call_ensures(
                AllowAnyAuthenticatedClient::verify_tls12_signature,
                (mandatory, message, cert, dss),
                r,
            )) ==> (r is Ok <==> tls12 is Ok) && (r is Err ==> r->Err_0 == tls12->Err_0),
        forall|r: Result<HandshakeSignatureValid, TlsError>|
            (#[trigger] call_ensures(
                AllowAnyAnonymousOrAuthenticatedClient::verify_tls12_signature,
                (optional, message, cert, dss),
                r,
            )) ==> (r is Ok <==> tls12 is Ok) && (r is Err ==> r->Err_0 == tls12->Err_0),
        forall|r: Result<HandshakeSignatureValid, TlsError>|
            (#[trigger] call_ensures(
                NoClientAuth::verify_tls12_signature,
                (off, message, cert, dss),
                r,
            )) ==> (r is Ok <==> tls12 is Ok) && (r is Err ==> r->Err_0 == tls12->Err_0),
        forall|r: Result<HandshakeSignatureValid, TlsError>|
            (#[trigger] call_ensures(
                WebPkiVerifier::verify_tls13_signature,
                (server, message, cert, dss),
                r,
            )) ==> (r is Ok <==> tls13 is Ok) && (r is Err ==> r->Err_0 == tls13->Err_0),
        forall|r: Result<HandshakeSignatureValid, TlsError>|
            (#[trigger] call_ensures(
                AllowAnyAuthenticatedClient::verify_tls13_signature,
                (mandatory, message, cert, dss),
                r,
            )) ==> (r is Ok <==> tls13 is Ok) && (r is Err ==> r->Err_0 == tls13->Err_0),
        forall|r: Result<HandshakeSignatureValid, TlsError>|
            (#[trigger] call_ensures(
                AllowAnyAnonymousOrAuthenticatedClient::verify_tls13_signature,
                (optional, message, cert, dss),
                r,
            )) ==> (r is Ok <==> tls13 is Ok) && (r is Err ==> r->Err_0 == tls13->Err_0),
        forall|r: Result<HandshakeSignatureValid, TlsError>|
            (#[trigger] call_ensures(
                NoClientAuth::verify_tls13_signature,
                (off, message, cert, dss),
                r,
            )) ==> (r is Ok <==> tls13 is Ok) && (r is Err ==> r->Err_0 == tls13->Err_0),
        forall|s: Vec<SignatureScheme>| #[trigger]
            call_ensures(WebPkiVerifier::supported_verify_schemes, (server,), s) ==> s@
                == schemes@,
        forall|s: Vec<SignatureScheme>| #[trigger]
            call_ensures(
                AllowAnyAuthenticatedClient::supported_verify_schemes,
                (mandatory,),
                s,
            ) ==> s@ == schemes@,
        forall|s: Vec<SignatureScheme>| #[trigger]
            call_ensures(
                AllowAnyAnonymousOrAuthenticatedClient::supported_verify_schemes,
                (optional,),
                s,
            ) ==> s@ == schemes@,
        forall|s: Vec<SignatureScheme>| #[trigger]
            call_ensures(NoClientAuth::supported_verify_schemes, (off,), s) ==> s@ == schemes@,
{
}

// ---------------------------------------------------------------------------
// Signed content
// ---------------------------------------------------------------------------

/// What is signed is 64 spaces, all of the context and all of the hash, byte for
/// byte, and nothing else.
pub proof fn law_signed_content(hash: &[u8], context: &[u8], content: Vec<u8>)
    requires
        call_ensures(verify_message_for_hash, (hash, context), content),
    ensures
        content@.len() == 64 + context@.len() + hash@.len(),
        forall|i: int| 0 <= i < 64 ==> #[trigger] content@[i] == 0x20,
        forall|i: int|
            0 <= i < context@.len() ==> content@[64 + i] == #[trigger] context@[i],
        forall|i: int|
            0 <= i < hash@.len() ==> content@[64 + context@.len() + i] == #[trigger] hash@[i],
{
    assert forall|i: int| 0 <= i < context@.len() implies content@[64 + i]
        == #[trigger] context@[i] by {
        assert(content@.subrange(64, 64 + context@.len() as int)[i] == content@[64 + i]);
    }
    assert forall|i: int| 0 <= i < hash@.len() implies content@[64 + context@.len() + i]
        == #[trigger] hash@[i] by {
        assert(content@.skip(64 + context@.len() as int)[i] == content@[64 + context@.len() + i]);
    }
}

/// What clients sign, and what servers sign, is what is signed for the bytes of
/// the digest in the context of the one or of the other, with a zero byte behind
/// it.
pub proof fn law_signed_content_of_clients_and_servers(
    digest: &Digest,
    by_client: Vec<u8>,
    by_server: Vec<u8>,
    hash: &[u8],
    client_context: &[u8],
    server_context: &[u8],
    client_content: Vec<u8>,
    server_content: Vec<u8>,
)
    requires
        call_ensures(construct_tls13_client_verify_message, (digest,), by_client),
        call_ensures(construct_tls13_server_verify_message, (digest,), by_server),
        hash@ == pki::digest_value(*digest),
        client_context@.len() == 34 && server_context@.len() == 34,
        forall|i: int|
            0 <= i < 33 ==> #[trigger] client_context@[i]
                == "TLS 1.3, client CertificateVerify"@[i] as u8,
        forall|i: int|
            0 <= i < 33 ==> #[trigger] server_context@[i]
                == "TLS 1.3, server CertificateVerify"@[i] as u8,
        client_context@[33] == 0 && server_context@[33] == 0,
        call_ensures(verify_message_for_hash, (hash, client_context), client_content),
        call_ensures(verify_message_for_hash, (hash, server_context), server_content),
    ensures
        by_client@ == client_content@,
        by_server@ == server_content@,
        by_client@ != by_server@,
        forall|i: int|
            0 <= i < by_client@.len() && !(73 <= i < 79) ==> #[trigger] by_client@[i]
                == by_server@[i],
{
    reveal_strlit("TLS 1.3, client CertificateVerify");
    reveal_strlit("TLS 1.3, server CertificateVerify");
    law_signed_content(hash, client_context, client_content);
    law_signed_content(hash, server_context, server_content);
    lemma_same_content(by_client@, client_content@, client_context@, hash@);
    lemma_same_content(by_server@, server_content@, server_context@, hash@);
    assert(by_client@[73] == client_context@[9]);
    assert(by_server@[73] == server_context@[9]);
    assert forall|i: int| 0 <= i < by_client@.len() && !(73 <= i < 79) implies #[trigger] by_client@[i]
        == by_server@[i] by {
        if 64 <= i < 98 {
            assert(client_content@[64 + (i - 64)] == client_context@[i - 64]);
            assert(server_content@[64 + (i - 64)] == server_context@[i - 64]);
        } else if i >= 98 {
            assert(client_content@[98 + (i - 98)] == hash@[i - 98]);
            assert(server_content@[98 + (i - 98)] == hash@[i - 98]);
        }
    }
}

/// Two byte strings with the parts of a signed content in the same places are
/// the same.
proof fn lemma_same_content(built: Seq<u8>, content: Seq<u8>, context: Seq<u8>, hash: Seq<u8>)
    requires
        context.len() == 34,
        context[33] == 0,
        built.len() == 98 + hash.len(),
        content.len() == 98 + hash.len(),
        forall|i: int| 0 <= i < 64 ==> #[trigger] built[i] == 0x20,
        forall|i: int| 0 <= i < 64 ==> #[trigger] content[i] == 0x20,
        forall|i: int| 0 <= i < 33 ==> built[64 + i] == #[trigger] context[i],
        forall|i: int| 0 <= i < 34 ==> content[64 + i] == #[trigger] context[i],
        built[97] == 0,
        built.skip(98) == hash,
        forall|i: int| 0 <= i < hash.len() ==> content[98 + i] == #[trigger] hash[i],
    ensures
        built == content,
{
    assert forall|i: int| 0 <= i < built.len() implies built[i] == content[i] by {
        if 64 <= i < 98 {
            assert(content[64 + (i - 64)] == context[i - 64]);
            if i < 97 {
                assert(built[64 + (i - 64)] == context[i - 64]);
            }
        } else if i >= 98 {
            assert(built.skip(98)[i - 98] == built[i]);
            assert(content[98 + (i - 98)] == hash[i - 98]);
        }
    }
    assert(built =~= content);
}

// ---------------------------------------------------------------------------
// Signatures on the wire
// ---------------------------------------------------------------------------

/// The code points of the schemes.
pub proof fn law_codes(scheme: SignatureScheme, code: u16)
    requires
        call_ensures(SignatureScheme::get_u16, (&scheme,), code),
    ensures
        code == scheme.code(),
        scheme is RSA_PKCS1_SHA1 ==> code == 0x0201,
        scheme is ECDSA_SHA1_Legacy ==> code == 0x0203,
        scheme is RSA_PKCS1_SHA256 ==> code == 0x0401,
        scheme is ECDSA_NISTP256_SHA256 ==> code == 0x0403,
        scheme is RSA_PKCS1_SHA384 ==> code == 0x0501,
        scheme is ECDSA_NISTP384_SHA384 ==> code == 0x0503,
        scheme is RSA_PKCS1_SHA512 ==> code == 0x0601,
        scheme is ECDSA_NISTP521_SHA512 ==> code == 0x0603,
        scheme is RSA_PSS_SHA256 ==> code == 0x0804,
        scheme is RSA_PSS_SHA384 ==> code == 0x0805,
        scheme is RSA_PSS_SHA512 ==> code == 0x0806,
        scheme is ED25519 ==> code == 0x0807,
        scheme is ED448 ==> code == 0x0808,
        scheme matches SignatureScheme::Unknown(unknown) ==> code == unknown,
{
}

/// The schemes of the code points: thirteen have a name, and every other one is
/// kept as it is.
pub proof fn law_schemes_of_codes(code: u16, scheme: SignatureScheme)
    requires
        call_ensures(SignatureScheme::from_u16, (code,), scheme),
    ensures
        code == 0x0201 <==> scheme is RSA_PKCS1_SHA1,
        code == 0x0203 <==> scheme is ECDSA_SHA1_Legacy,
        code == 0x0401 <==> scheme is RSA_PKCS1_SHA256,
        code == 0x0403 <==> scheme is ECDSA_NISTP256_SHA256,
        code == 0x0501 <==> scheme is RSA_PKCS1_SHA384,
        code == 0x0503 <==> scheme is ECDSA_NISTP384_SHA384,
        code == 0x0601 <==> scheme is RSA_PKCS1_SHA512,
        code == 0x0603 <==> scheme is ECDSA_NISTP521_SHA512,
        code == 0x0804 <==> scheme is RSA_PSS_SHA256,
        code == 0x0805 <==> scheme is RSA_PSS_SHA384,
        code == 0x0806 <==> scheme is RSA_PSS_SHA512,
        code == 0x0807 <==> scheme is ED25519,
        code == 0x0808 <==> scheme is ED448,
        scheme matches SignatureScheme::Unknown(unknown) ==> unknown == code,
{
    lemma_names_of_codes(scheme);
}

/// A canonical scheme has the name of its code point.
proof fn lemma_names_of_codes(scheme: SignatureScheme)
    requires
        scheme.is_canonical(),
    ensures
        scheme.code() == 0x0201 ==> scheme is RSA_PKCS1_SHA1,
        scheme.code() == 0x0203 ==> scheme is ECDSA_SHA1_Legacy,
        scheme.code() == 0x0401 ==> scheme is RSA_PKCS1_SHA256,
        scheme.code() == 0x0403 ==> scheme is ECDSA_NISTP256_SHA256,
        scheme.code() == 0x0501 ==> scheme is RSA_PKCS1_SHA384,
        scheme.code() == 0x0503 ==> scheme is ECDSA_NISTP384_SHA384,
        scheme.code() == 0x0601 ==> scheme is RSA_PKCS1_SHA512,
        scheme.code() == 0x0603 ==> scheme is ECDSA_NISTP521_SHA512,
        scheme.code() == 0x0804 ==> scheme is RSA_PSS_SHA256,
        scheme.code() == 0x0805 ==> scheme is RSA_PSS_SHA384,
        scheme.code() == 0x0806 ==> scheme is RSA_PSS_SHA512,
        scheme.code() == 0x0807 ==> scheme is ED25519,
        scheme.code() == 0x0808 ==> scheme is ED448,
{
    assert(SignatureScheme::is_named(SignatureScheme::RSA_PKCS1_SHA1.code()));
    assert(SignatureScheme::is_named(SignatureScheme::ECDSA_SHA1_Legacy.code()));
    assert(SignatureScheme::is_named(SignatureScheme::RSA_PKCS1_SHA256.code()));
    assert(SignatureScheme::is_named(SignatureScheme::ECDSA_NISTP256_SHA256.code()));
    assert(SignatureScheme::is_named(SignatureScheme::RSA_PKCS1_SHA384.code()));
    assert(SignatureScheme::is_named(SignatureScheme::ECDSA_NISTP384_SHA384.code()));
    assert(SignatureScheme::is_named(SignatureScheme::RSA_PKCS1_SHA512.code()));
    assert(SignatureScheme::is_named(SignatureScheme::ECDSA_NISTP521_SHA512.code()));
    assert(SignatureScheme::is_named(SignatureScheme::RSA_PSS_SHA256.code()));
    assert(SignatureScheme::is_named(SignatureScheme::RSA_PSS_SHA384.code()));
    assert(SignatureScheme::is_named(SignatureScheme::RSA_PSS_SHA512.code()));
    assert(SignatureScheme::is_named(SignatureScheme::ED25519.code()));
    assert(SignatureScheme::is_named(SignatureScheme::ED448.code()));
}

/// A signed structure is written as the code point of its scheme, the length of
/// the signature and the signature, byte for byte.
pub proof fn law_written_signature(dss: &DigitallySignedStruct, code: u16, sig: &[u8])
    requires
        call_ensures(SignatureScheme::get_u16, (&dss.scheme,), code),
        call_ensures(DigitallySignedStruct::signature, (dss,), sig),
    ensures
        dss.encoding().len() == 4 + sig@.len(),
        dss.encoding()[0] * 256 + dss.encoding()[1] == code,
        dss.encoding()[2] * 256 + dss.encoding()[3] == sig@.len() % 0x1_0000,
        forall|i: int| 0 <= i < sig@.len() ==> dss.encoding()[4 + i] == #[trigger] sig@[i],
{
}

/// A signed structure is read from the code point of its scheme, the length of
/// the signature and the signature, byte for byte.  It takes up just these
/// bytes, and can be read wherever they are all there.
pub proof fn law_read_signature(
    input: Seq<u8>,
    outcome: Result<DigitallySignedStruct, InvalidMessage>,
    unread: Seq<u8>,
)
    requires
        DigitallySignedStruct::decodes(input, outcome, unread),
    ensures
        outcome is Ok <==> input.len() >= 4 && input.len() >= 4 + input[2] * 256 + input[3],
        input.len() < 2 ==> outcome == Err::<DigitallySignedStruct, _>(
            InvalidMessage::MissingData("SignatureScheme"),
        ) && unread == input,
        2 <= input.len() < 4 ==> outcome == Err::<DigitallySignedStruct, _>(
            InvalidMessage::MissingData("u16"),
        ) && unread == input.skip(2),
        4 <= input.len() < 4 + input[2] * 256 + input[3] ==> outcome == Err::<
            DigitallySignedStruct,
            _,
        >(InvalidMessage::MessageTooShort) && unread == input.skip(4),
        forall|dss: DigitallySignedStruct, sig: &[u8]|
            outcome == Ok::<_, InvalidMessage>(dss) && #[trigger] call_ensures(
                DigitallySignedStruct::signature,
                (&dss,),
                sig,
            ) ==> {
                &&& sig@.len() == input[2] * 256 + input[3]
                &&& unread == input.skip(4 + sig@.len() as int)
                &&& forall|i: int| 0 <= i < sig@.len() ==> #[trigger] sig@[i] == input[4 + i]
            },
        forall|dss: DigitallySignedStruct, code: u16|
            outcome == Ok::<_, InvalidMessage>(dss) && #[trigger] call_ensures(
                SignatureScheme::get_u16,
                (&dss.scheme,),
                code,
            ) ==> code == input[0] * 256 + input[1],
        outcome matches Ok(dss) ==> forall|scheme: SignatureScheme|
            #[trigger] call_ensures(
                SignatureScheme::from_u16,
                ((input[0] * 256 + input[1]) as u16,),
                scheme,
            ) ==> dss.scheme == scheme,
{
    if input.len() >= 4 {
        assert(input.skip(2)[0] == input[2]);
        assert(input.skip(2)[1] == input[3]);
    }
    if outcome is Ok {
        let dss = outcome->Ok_0;
        assert forall|scheme: SignatureScheme|
            #[trigger] call_ensures(
                SignatureScheme::from_u16,
                ((input[0] * 256 + input[1]) as u16,),
                scheme,
            ) implies dss.scheme == scheme by {
            enums::lemma_code_is_injective(dss.scheme, scheme);
        }
    }
}

/// The parts of a signed structure are those that it is made of, and a copy of
/// it has the same parts.
pub proof fn law_parts_of_a_signed_structure(
    scheme: SignatureScheme,
    bytes: Vec<u8>,
    dss: DigitallySignedStruct,
    copy: DigitallySignedStruct,
    sig: &[u8],
    copied_sig: &[u8],
)
    requires
        call_ensures(DigitallySignedStruct::new, (scheme, bytes), dss),
        call_ensures(DigitallySignedStruct::clone, (&dss,), copy),
        call_ensures(DigitallySignedStruct::signature, (&dss,), sig),
        call_ensures(DigitallySignedStruct::signature, (&copy,), copied_sig),
    ensures
        dss.scheme == scheme,
        copy.scheme == scheme,
        sig@ == bytes@,
        copied_sig@ == bytes@,
{
}

/// A payload is its length and its bytes, byte for byte, written and read.
pub proof fn law_payloads(
    payload: &PayloadU16,
    input: Seq<u8>,
    outcome: Result<PayloadU16, InvalidMessage>,
    unread: Seq<u8>,
)
    requires
        PayloadU16::decodes(input, outcome, unread),
    ensures
        payload.encoding().len() == 2 + payload.0@.len(),
        payload.encoding()[0] * 256 + payload.encoding()[1] == payload.0@.len() % 0x1_0000,
        forall|i: int|
            0 <= i < payload.0@.len() ==> payload.encoding()[2 + i] == #[trigger] payload.0@[i],
        outcome is Ok <==> input.len() >= 2 && input.len() >= 2 + input[0] * 256 + input[1],
        input.len() < 2 ==> outcome == Err::<PayloadU16, _>(InvalidMessage::MissingData("u16"))
            && unread == input,
        2 <= input.len() < 2 + input[0] * 256 + input[1] ==> outcome == Err::<PayloadU16, _>(
            InvalidMessage::MessageTooShort,
        ) && unread == input.skip(2),
        outcome matches Ok(read) ==> {
            &&& read.0@.len() == input[0] * 256 + input[1]
            &&& unread == input.skip(2 + read.0@.len() as int)
            &&& forall|i: int| 0 <= i < read.0@.len() ==> #[trigger] read.0@[i] == input[2 + i]
        },
{
}

/// A number, and the code point of a scheme, is two bytes, the more significant
/// one first, written and read.
pub proof fn law_numbers_and_schemes_on_the_wire(
    number: u16,
    scheme: SignatureScheme,
    code: u16,
    input: Seq<u8>,
    read: Result<u16, InvalidMessage>,
    unread: Seq<u8>,
    read_scheme: Result<SignatureScheme, InvalidMessage>,
    unread_scheme: Seq<u8>,
)
    requires
        call_ensures(SignatureScheme::get_u16, (&scheme,), code),
        u16::decodes(input, read, unread),
        SignatureScheme::decodes(input, read_scheme, unread_scheme),
    ensures
        number.encoding().len() == 2,
        number.encoding()[0] * 256 + number.encoding()[1] == number,
        scheme.encoding() == code.encoding(),
        read is Ok <==> input.len() >= 2,
        read matches Ok(n) ==> n == input[0] * 256 + input[1] && unread == input.skip(2),
        read matches Err(error) ==> error == InvalidMessage::MissingData("u16") && unread == input,
        read_scheme is Ok <==> input.len() >= 2,
        unread_scheme == unread,
        read_scheme matches Err(error) ==> error == InvalidMessage::MissingData("SignatureScheme"),
        read_scheme matches Ok(found) ==> forall|named: SignatureScheme|
            #[trigger] call_ensures(
                SignatureScheme::from_u16,
                ((input[0] * 256 + input[1]) as u16,),
                named,
            ) ==> found == named,
{
    if read_scheme is Ok {
        let found = read_scheme->Ok_0;
        assert forall|named: SignatureScheme|
            #[trigger] call_ensures(
                SignatureScheme::from_u16,
                ((input[0] * 256 + input[1]) as u16,),
                named,
            ) implies found == named by {
            enums::lemma_code_is_injective(found, named);
        }
    }
}

// ---------------------------------------------------------------------------
// Distinguished names
// ---------------------------------------------------------------------------

/// The name of a trust anchor is the DER encoding of a SEQUENCE whose contents
/// are the subject that path building is handed: a tag byte; the length of the
/// contents, in one byte if it is below 128, and else in as few bytes as it
/// takes, the most significant one first, with their count before them; and the
/// contents.
pub proof fn law_subject_is_a_der_sequence(
    anchor: &OwnedTrustAnchor,
    name: &DistinguishedName,
    handed: webpki::TrustAnchor<'_>,
)
    requires
        call_ensures(OwnedTrustAnchor::subject, (anchor,), name),
        call_ensures(OwnedTrustAnchor::to_trust_anchor, (anchor,), handed),
    ensures
        name.0@[0] == 0x30,
        ({
            let contents = pki::trust_anchor_view(handed).subject;
            let length = contents.len() as int;
            let digits = name.0@.len() - length - 2;
            if length < 128 {
                &&& digits == 0
                &&& name.0@[1] == length
                &&& name.0@.skip(2) == contents
            } else {
                &&& 1 <= digits <= 8
                &&& name.0@[1] == 128 + digits
                &&& vstd::arithmetic::power::pow(256, (digits - 1) as nat) <= length
                &&& length < vstd::arithmetic::power::pow(256, digits as nat)
                &&& forall|i: int|
                    0 <= i < digits ==> #[trigger] name.0@[2 + i] == (length
                        / vstd::arithmetic::power::pow(256, (digits - 1 - i) as nat)) % 256
                &&& name.0@.skip(2 + digits) == contents
            }
        }),
{
    let contents = pki::trust_anchor_view(handed).subject;
    let length = contents.len();
    assert(name.0@ == anchors::der_sequence(contents));
    if length < 128 {
        assert(name.0@.skip(2) =~= contents);
    } else {
        let field = anchors::base256(length);
        assert(name.0.len() == name.0@.len());
        anchors::lemma_usize_digits(length as usize);
        lemma_base256_digits(length);
        assert(name.0@.len() == 2 + field.len() + length);
        assert forall|i: int| 0 <= i < field.len() implies #[trigger] name.0@[2 + i] == (length as int
            / vstd::arithmetic::power::pow(256, (field.len() - 1 - i) as nat)) % 256 by {
            assert(name.0@[2 + i] == field[i]);
        }
        assert(name.0@.skip(2 + field.len() as int) =~= contents);
    }
}

/// What the digits of a number in base 256 are, and how many there are.
proof fn lemma_base256_digits(n: nat)
    requires
        n > 0,
    ensures
        anchors::base256(n).len() >= 1,
        vstd::arithmetic::power::pow(256, (anchors::base256(n).len() - 1) as nat) <= n,
        n < vstd::arithmetic::power::pow(256, anchors::base256(n).len()),
        forall|i: int|
            0 <= i < anchors::base256(n).len() ==> #[trigger] anchors::base256(n)[i] == (n as int
                / vstd::arithmetic::power::pow(
                256,
                (anchors::base256(n).len() - 1 - i) as nat,
            )) % 256,
    decreases n,
{
    let count = anchors::base256(n).len();
    let front = anchors::base256(n / 256);
    reveal(vstd::arithmetic::power::pow);
    vstd::arithmetic::power::lemma_pow0(256);
    if n >= 256 {
        lemma_base256_digits(n / 256);
        assert(count == front.len() + 1);
        assert forall|i: int| 0 <= i < count implies #[trigger] anchors::base256(n)[i] == (
        n as int / vstd::arithmetic::power::pow(256, (count - 1 - i) as nat)) % 256 by {
            if i < count - 1 {
                let power = vstd::arithmetic::power::pow(256, (count - 2 - i) as nat);
                assert(anchors::base256(n)[i] == front[i]);
                vstd::arithmetic::power::lemma_pow_positive(256, (count - 2 - i) as nat);
                vstd::arithmetic::div_mod::lemma_div_denominator(n as int, 256, power);
                assert(vstd::arithmetic::power::pow(256, (count - 1 - i) as nat) == 256 * power);
            }
        }
    } else {
        assert(anchors::base256(0).len() == 0);
        assert(vstd::arithmetic::power::pow(256, 1) == 256 * vstd::arithmetic::power::pow(256, 0));
    }
}

// ---------------------------------------------------------------------------
// Conversions of errors
// ---------------------------------------------------------------------------

/// An error becomes part of the error that it is converted to, unchanged.
pub proof fn law_conversions_keep_the_error(
    certificate: CertificateError,
    misbehaviour: PeerMisbehaved,
)
    ensures
        <TlsError as vstd::std_specs::convert::FromSpec<CertificateError>>::obeys_from_spec(),
        <TlsError as vstd::std_specs::convert::FromSpec<CertificateError>>::from_spec(certificate)
            == TlsError::InvalidCertificate(certificate),
        <TlsError as vstd::std_specs::convert::FromSpec<PeerMisbehaved>>::obeys_from_spec(),
        <TlsError as vstd::std_specs::convert::FromSpec<PeerMisbehaved>>::from_spec(misbehaviour)
            == TlsError::PeerMisbehaved(misbehaviour),
{
}

} // verus!
