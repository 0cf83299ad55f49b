//! Verification of server certificates.
use vstd::prelude::*;
use std::time::SystemTime;
use crate::anchors::RootCertStore;
use crate::anchors::trust_roots;
use crate::enums::SignatureScheme;
use crate::error::CertificateError;
use crate::error::TlsError;
use crate::handshake;
use crate::handshake::supported_sig_algs;
use crate::handshake::verify_signed_struct;
use crate::handshake::verify_tls13;
use crate::key;
use crate::key::Certificate;
use crate::key::ParsedCertificate;
use crate::markers;
use crate::markers::HandshakeSignatureValid;
use crate::markers::ServerCertVerified;
use crate::pki;
use crate::pki::SubjectName;
use crate::pki::TrustAnchorView;
use crate::pki_error;
use crate::server_name::IpAddr;
use crate::server_name::ServerName;
use crate::signed_struct::DigitallySignedStruct;

verus! {

/// Whether the certificate `cert` chains to one of `anchors` at `now` and may
/// be used by a server, and what is reported otherwise.
pub open spec fn server_chain_verdict(
    cert: Seq<u8>,
    anchors: Seq<TrustAnchorView>,
    intermediates: Seq<Seq<u8>>,
    now: SystemTime,
) -> Result<(), TlsError> {
    match pki::unix_seconds(now) {
        None => Err(TlsError::FailedToGetCurrentTime),
        Some(time) => pki_error::reported(
            pki_error::classified(
                pki::server_chain_check(
                    cert,
                    handshake::supported_algorithms(),
                    anchors,
                    intermediates,
                    time,
                ),
            ),
        ),
    }
}

/// Whether the certificate `cert` is valid for `name`, and what is reported
/// otherwise.
pub open spec fn server_name_verdict(cert: Seq<u8>, name: SubjectName) -> Result<(), TlsError> {
    if name matches SubjectName::DnsName(text) && !pki::is_dns_name(text) {
        Err(TlsError::InvalidCertificate(CertificateError::BadEncoding))
    } else {
        pki_error::reported(pki_error::classified(pki::subject_name_check(cert, name)))
    }
}

/// Whether a server with the certificate `cert` is the one called `name`, and
/// what is reported otherwise: the certificate has to parse, to chain to a trust
/// anchor, and to be valid for the name, in this order.
pub open spec fn server_cert_verdict(
    cert: Seq<u8>,
    anchors: Seq<TrustAnchorView>,
    intermediates: Seq<Seq<u8>>,
    name: SubjectName,
    now: SystemTime,
) -> Result<(), TlsError> {
    if key::parse_verdict(cert) is Err {
        key::parse_verdict(cert)
    } else if server_chain_verdict(cert, anchors, intermediates, now) is Err {
        server_chain_verdict(cert, anchors, intermediates, now)
    } else {
        server_name_verdict(cert, name)
    }
}

/// The encodings of `intermediates`, in order.
pub fn intermediate_chain(intermediates: &[Certificate]) -> (chain: Vec<&[u8]>)
    ensures
        pki::byte_strings(chain@) == key::encodings(intermediates@),
        chain@.len() == intermediates@.len(),
        forall|i: int|
            0 <= i < intermediates@.len() ==> (#[trigger] chain@[i])@ == intermediates@[i].0@,
{
    let mut chain: Vec<&[u8]> = Vec::new();
    for i in 0..intermediates.len()
        invariant
            pki::byte_strings(chain@) == key::encodings(intermediates@.take(i as int)),
    {
        let ghost before = chain@;
        chain.push(intermediates[i].0.as_slice());
        assert(pki::byte_strings(chain@) =~= pki::byte_strings(before).push(
            intermediates@[i as int]@,
        ));
        assert(key::encodings(intermediates@.take(i + 1)) =~= key::encodings(
            intermediates@.take(i as int),
        ).push(intermediates@[i as int]@));
    }
    assert(intermediates@.take(intermediates.len() as int) =~= intermediates@);
    proof {
        let sent = pki::byte_strings(chain@);
        let given = key::encodings(intermediates@);
        assert(sent.len() == given.len());
        assert forall|i: int| 0 <= i < intermediates@.len() implies (#[trigger] chain@[i])@
            == intermediates@[i].0@ by {
            assert(sent[i] == given[i]);
        }
    }
    chain
}

/// Verify that the end-entity certificate `cert` is a valid server cert
/// and chains to at least one of the trust anchors in the `roots`
/// [`RootCertStore`].
///
/// `intermediates` contains all certificates other than the end-entity one that
/// were sent as part of the server's Certificate message. It is in the
/// same order that the server sent them and may be empty.
pub fn verify_server_cert_signed_by_trust_anchor(
    cert: &ParsedCertificate<'_>,
    roots: &RootCertStore,
    intermediates: &[Certificate],
    now: SystemTime,
) -> (result: Result<(), TlsError>)
    ensures
        result == server_chain_verdict(cert@, roots@, key::encodings(intermediates@), now),
        roots@.len() == 0 ==> result is Err,
{
    let chain = intermediate_chain(intermediates);
    let trust_roots = trust_roots(roots);
    let webpki_now = match webpki::Time::try_from(now) {
        Ok(time) => time,
        Err(_) => return Err(TlsError::FailedToGetCurrentTime),
    };
    let algorithms = supported_sig_algs();
    let outcome = pki::verify_server_chain(
        &cert.0,
        algorithms.as_slice(),
        trust_roots.as_slice(),
        chain.as_slice(),
        webpki_now,
    );
    pki_error::pki_outcome(pki_error::classify_outcome(outcome))
}

/// Verify that the `end_entity` has a name or alternative name matching the
/// `server_name`.
///
/// Note: this only verifies the name and should be used in conjunction with more
/// verification like [`verify_server_cert_signed_by_trust_anchor`].
pub fn verify_server_name(cert: &ParsedCertificate<'_>, server_name: &ServerName) -> (result:
    Result<(), TlsError>)
    ensures
        result == server_name_verdict(cert@, server_name@),
{
    let outcome = match server_name {
        ServerName::DnsName(dns_name) => {
            match webpki::DnsNameRef::try_from_ascii_str(dns_name.0.as_str()) {
                Ok(name) => pki::verify_dns_name(&cert.0, name),
                Err(_) => return Err(TlsError::InvalidCertificate(CertificateError::BadEncoding)),
            }
        },
        ServerName::IpAddress(IpAddr::V4(octets)) => pki::verify_ipv4_address(&cert.0, *octets),
        ServerName::IpAddress(IpAddr::V6(octets)) => pki::verify_ipv6_address(&cert.0, *octets),
    };
    pki_error::pki_outcome(pki_error::classify_outcome(outcome))
}

/// The signature verification methods supported, the most preferred first.
pub open spec fn verification_scheme_list() -> Seq<SignatureScheme> {
    seq![
        SignatureScheme::ECDSA_NISTP384_SHA384,
        SignatureScheme::ECDSA_NISTP256_SHA256,
        SignatureScheme::ED25519,
        SignatureScheme::RSA_PSS_SHA512,
        SignatureScheme::RSA_PSS_SHA384,
        SignatureScheme::RSA_PSS_SHA256,
        SignatureScheme::RSA_PKCS1_SHA512,
        SignatureScheme::RSA_PKCS1_SHA384,
        SignatureScheme::RSA_PKCS1_SHA256,
    ]
}

/// Something that can verify a server certificate chain, and verify
/// signatures made by certificates.
pub trait ServerCertVerifier: Send + Sync {
    /// Verify the end-entity certificate `end_entity` is valid for the
    /// hostname `server_name` and chains to at least one trust anchor.
    ///
    /// `intermediates` contains all certificates other than `end_entity` that
    /// were sent as part of the server's Certificate message. It is in the
    /// same order that the server sent them and may be empty.
    ///
    /// Note that none of the certificates have been parsed yet, so it is the
    /// responsibility of the implementor to handle invalid data. It is
    /// recommended that the implementor returns an `InvalidCertificate` error
    /// with `BadEncoding` when these cases are encountered.
    fn verify_server_cert(
        &self,
        end_entity: &Certificate,
        intermediates: &[Certificate],
        server_name: &ServerName,
        ocsp_response: &[u8],
        now: SystemTime,
    ) -> (result: Result<ServerCertVerified, TlsError>);

    /// Verify a signature allegedly by the given server certificate.
    ///
    /// `message` is not hashed, and needs hashing during the verification.
    /// The signature and algorithm are within `dss`.  `cert` contains the
    /// public key to use.
    ///
    /// `cert` has already been validated by
    /// [`ServerCertVerifier::verify_server_cert`].
    ///
    /// If and only if the signature is valid, return
    /// `Ok(HandshakeSignatureValid)`.  Otherwise, return an error.
    ///
    /// This method is only called for TLS1.2 handshakes.  Note that, in TLS1.2,
    /// SignatureSchemes such as `SignatureScheme::ECDSA_NISTP256_SHA256` are not
    /// in fact bound to the specific curve implied in their name.
    fn verify_tls12_signature(
        &self,
        message: &[u8],
        cert: &Certificate,
        dss: &DigitallySignedStruct,
    ) -> (result: Result<HandshakeSignatureValid, TlsError>)
        default_ensures
            markers::verdict(result) == handshake::tls12_verdict(
                message@,
                cert@,
                dss.scheme,
                dss.sig_bytes(),
            ),
    {
        verify_signed_struct(message, cert, dss)
    }

    /// Verify a signature allegedly by the given server certificate.
    ///
    /// This method is only called for TLS1.3 handshakes.
    ///
    /// This method is very similar to `verify_tls12_signature`: but note the
    /// tighter ECDSA SignatureScheme semantics -- e.g.
    /// `SignatureScheme::ECDSA_NISTP256_SHA256` must only validate signatures
    /// using public keys on the right curve.
    ///
    /// `cert` has already been validated by
    /// [`ServerCertVerifier::verify_server_cert`].
    ///
    /// If and only if the signature is valid, return
    /// `Ok(HandshakeSignatureValid)`.  Otherwise, return an error.
    fn verify_tls13_signature(
        &self,
        message: &[u8],
        cert: &Certificate,
        dss: &DigitallySignedStruct,
    ) -> (result: Result<HandshakeSignatureValid, TlsError>)
        default_ensures
            markers::verdict(result) == handshake::tls13_verdict(
                message@,
                cert@,
                dss.scheme,
                dss.sig_bytes(),
            ),
    {
        verify_tls13(message, cert, dss)
    }

    /// Return the list of SignatureSchemes that this verifier will handle,
    /// in `verify_tls12_signature` and `verify_tls13_signature` calls.
    ///
    /// This should be in priority order, with the most preferred first.
    fn supported_verify_schemes(&self) -> (schemes: Vec<SignatureScheme>)
        default_ensures
            schemes@ == verification_scheme_list(),
    {
        WebPkiVerifier::verification_schemes()
    }
}

/// Default `ServerCertVerifier`, see the trait impl for more information.
pub struct WebPkiVerifier {
    roots: RootCertStore,
}

impl View for WebPkiVerifier {
    type V = Seq<TrustAnchorView>;

    /// The trust anchors that server certs may be issued by.
    closed spec fn view(&self) -> Seq<TrustAnchorView> {
        self.roots@
    }
}

impl WebPkiVerifier {
    /// Constructs a new `WebPkiVerifier`.
    ///
    /// `roots` is the set of trust anchors to trust for issuing server certs.
    pub fn new(roots: RootCertStore) -> (verifier: Self)
        ensures
            verifier@ == roots@,
    {
        WebPkiVerifier { roots }
    }

    /// Returns the signature verification methods supported.
    pub fn verification_schemes() -> (schemes: Vec<SignatureScheme>)
        ensures
            schemes@ == verification_scheme_list(),
    {
        vec![
            SignatureScheme::ECDSA_NISTP384_SHA384,
            SignatureScheme::ECDSA_NISTP256_SHA256,
            SignatureScheme::ED25519,
            SignatureScheme::RSA_PSS_SHA512,
            SignatureScheme::RSA_PSS_SHA384,
            SignatureScheme::RSA_PSS_SHA256,
            SignatureScheme::RSA_PKCS1_SHA512,
            SignatureScheme::RSA_PKCS1_SHA384,
            SignatureScheme::RSA_PKCS1_SHA256,
        ]
    }
}

impl ServerCertVerifier for WebPkiVerifier {
    /// Will verify the certificate is valid in the following ways:
    /// - Signed by a trusted `RootCertStore` CA
    /// - Not Expired
    /// - Valid for DNS entry
    ///
    /// The OCSP response is not validated.
    fn verify_server_cert(
        &self,
        end_entity: &Certificate,
        intermediates: &[Certificate],
        server_name: &ServerName,
        ocsp_response: &[u8],
        now: SystemTime,
    ) -> (result: Result<ServerCertVerified, TlsError>)
        ensures
            markers::verdict(result) == server_cert_verdict(
                end_entity@,
                self@,
                key::encodings(intermediates@),
                server_name@,
                now,
            ),
            self@.len() == 0 ==> result is Err,
    {
        let cert = match ParsedCertificate::try_from(end_entity) {
            Ok(cert) => cert,
            Err(error) => return Err(error),
        };
        match verify_server_cert_signed_by_trust_anchor(&cert, &self.roots, intermediates, now) {
            Ok(()) => {},
            Err(error) => return Err(error),
        }
        match verify_server_name(&cert, server_name) {
            Ok(()) => Ok(ServerCertVerified::assertion()),
            Err(error) => Err(error),
        }
    }
}

/// A server certificate is accepted if and only if it parses, the time is not
/// before the epoch, the certificate chains to a trust anchor, and it is valid
/// for the name of the server.
pub proof fn lemma_server_cert_accepted_iff(
    cert: Seq<u8>,
    anchors: Seq<TrustAnchorView>,
    intermediates: Seq<Seq<u8>>,
    name: SubjectName,
    now: SystemTime,
)
    ensures
        server_cert_verdict(cert, anchors, intermediates, name, now) is Ok <==> {
            &&& pki::end_entity_parse(cert) is Ok
            &&& pki::unix_seconds(now) matches Some(time)
            &&& pki::server_chain_check(
                cert,
                handshake::supported_algorithms(),
                anchors,
                intermediates,
                time,
            ) is Ok
            &&& name matches SubjectName::DnsName(text) ==> pki::is_dns_name(text)
            &&& pki::subject_name_check(cert, name) is Ok
        },
{
}

/// Rejecting a server certificate is never blamed on the protocol; the clock is
/// to blame if and only if it stands before the epoch and the certificate
/// parses.
pub proof fn lemma_server_cert_errors(
    cert: Seq<u8>,
    anchors: Seq<TrustAnchorView>,
    intermediates: Seq<Seq<u8>>,
    name: SubjectName,
    now: SystemTime,
)
    ensures
        server_cert_verdict(cert, anchors, intermediates, name, now) matches Err(error) ==> {
            ||| error is InvalidCertificate
            ||| error == TlsError::FailedToGetCurrentTime
        },
        server_cert_verdict(cert, anchors, intermediates, name, now) == Err::<(), _>(
            TlsError::FailedToGetCurrentTime,
        ) <==> pki::end_entity_parse(cert) is Ok && pki::unix_seconds(now) is None,
{
}

/// The schemes that are offered to peers are exactly those that signatures can
/// be verified under, each offered once.
pub proof fn lemma_offered_schemes_are_verifiable(scheme: SignatureScheme)
    ensures
        verification_scheme_list().contains(scheme) <==> handshake::tls12_algorithms(
            scheme,
        ) is Some,
        verification_scheme_list().no_duplicates(),
{
    let list = verification_scheme_list();
    if handshake::tls12_algorithms(scheme) is Some {
        assert(list[0] == scheme || list[1] == scheme || list[2] == scheme || list[3] == scheme
            || list[4] == scheme || list[5] == scheme || list[6] == scheme || list[7] == scheme
            || list[8] == scheme);
    }
}

/// A signature under a scheme that was not offered is answered in the same way
/// whatever the certificate, the message and the signature are, and nothing else
/// is answered in that way in a TLS 1.2 handshake.
pub proof fn lemma_scheme_that_was_not_offered(
    message: Seq<u8>,
    cert: Seq<u8>,
    scheme: SignatureScheme,
    sig: Seq<u8>,
)
    ensures
        !verification_scheme_list().contains(scheme) <==> handshake::tls12_verdict(
            message,
            cert,
            scheme,
            sig,
        ) == Err::<(), _>(handshake::unadvertised_scheme()),
        !verification_scheme_list().contains(scheme) ==> handshake::tls13_verdict(
            message,
            cert,
            scheme,
            sig,
        ) == Err::<(), _>(handshake::unadvertised_scheme()),
{
    lemma_offered_schemes_are_verifiable(scheme);
}

} // verus!
