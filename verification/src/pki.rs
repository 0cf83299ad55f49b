//! The boundary to the `webpki` and `ring` crates.
//!
//! The types of those crates are opaque here.  Each has a name for the plain
//! value that it stands for (the DER encoding that a certificate was parsed
//! from, the algorithm that a static describes), and each call has a name for
//! its outcome as a function of such plain values.
use vstd::prelude::*;
use std::time::SystemTime;

verus! {

// ---------------------------------------------------------------------------
// Opaque types
// ---------------------------------------------------------------------------

/// `webpki::Error`: why certificate processing failed.
#[verifier::external_type_specification]
#[verifier::external_body]
pub struct ExPkiError(webpki::Error);

/// `webpki::EndEntityCert`: a parsed end-entity certificate.
#[verifier::external_type_specification]
#[verifier::external_body]
pub struct ExEndEntityCert<'a>(webpki::EndEntityCert<'a>);

/// `webpki::SignatureAlgorithm`: one signature verification mechanism.
#[verifier::external_type_specification]
#[verifier::external_body]
pub struct ExSignatureAlgorithm(webpki::SignatureAlgorithm);

/// `webpki::TrustAnchor`: a root that certificates may chain to.
#[verifier::external_type_specification]
#[verifier::external_body]
pub struct ExTrustAnchor<'a>(webpki::TrustAnchor<'a>);

/// `webpki::Time`: a count of seconds since the Unix epoch.
#[verifier::external_type_specification]
#[verifier::external_body]
pub struct ExTime(webpki::Time);

/// `webpki::DnsNameRef`: a DNS name whose syntax was checked.
#[verifier::external_type_specification]
#[verifier::external_body]
pub struct ExDnsNameRef<'a>(webpki::DnsNameRef<'a>);

/// `webpki::InvalidDnsNameError`: the answer to a malformed DNS name.
#[verifier::external_type_specification]
#[verifier::external_body]
pub struct ExInvalidDnsNameError(webpki::InvalidDnsNameError);

/// `ring::error::Unspecified`: a failure without details.
#[verifier::external_type_specification]
#[verifier::external_body]
pub struct ExUnspecified(ring::error::Unspecified);

/// `ring::digest::Digest`: the output of a hash function.
#[verifier::external_type_specification]
#[verifier::external_body]
pub struct ExDigest(ring::digest::Digest);

/// `std::time::SystemTime`: a point in time.
#[verifier::external_type_specification]
#[verifier::external_body]
pub struct ExSystemTime(SystemTime);

// ---------------------------------------------------------------------------
// Plain counterparts
// ---------------------------------------------------------------------------

/// The signature verification mechanisms of `webpki`, one variant for each of
/// its `SignatureAlgorithm` statics.
#[allow(non_camel_case_types)]
#[derive(Debug, Clone, Copy, PartialEq, Eq, Structural)]
pub enum PkiAlgorithm {
    /// ECDSA on the P-256 curve with SHA-256.
    ECDSA_P256_SHA256,
    /// ECDSA on the P-256 curve with SHA-384.
    ECDSA_P256_SHA384,
    /// ECDSA on the P-384 curve with SHA-256.
    ECDSA_P384_SHA256,
    /// ECDSA on the P-384 curve with SHA-384.
    ECDSA_P384_SHA384,
    /// Ed25519.
    ED25519,
    /// RSA PSS with SHA-256, for keys of 2048 to 8192 bits.
    RSA_PSS_2048_8192_SHA256_LEGACY_KEY,
    /// RSA PSS with SHA-384, for keys of 2048 to 8192 bits.
    RSA_PSS_2048_8192_SHA384_LEGACY_KEY,
    /// RSA PSS with SHA-512, for keys of 2048 to 8192 bits.
    RSA_PSS_2048_8192_SHA512_LEGACY_KEY,
    /// RSA PKCS#1 1.5 with SHA-256, for keys of 2048 to 8192 bits.
    RSA_PKCS1_2048_8192_SHA256,
    /// RSA PKCS#1 1.5 with SHA-384, for keys of 2048 to 8192 bits.
    RSA_PKCS1_2048_8192_SHA384,
    /// RSA PKCS#1 1.5 with SHA-512, for keys of 2048 to 8192 bits.
    RSA_PKCS1_2048_8192_SHA512,
    /// RSA PKCS#1 1.5 with SHA-384, for keys of 3072 to 8192 bits.
    RSA_PKCS1_3072_8192_SHA384,
}

/// The failures of `webpki` that this library tells apart; every other one is
/// kept as it came.
#[derive(Debug, Clone, Copy, PartialEq, Eq)]
pub enum PkiError {
    /// Some DER-encoded item is malformed.
    BadDer,
    /// Some DER-encoded time is malformed.
    BadDerTime,
    /// The certificate is not valid yet.
    CertNotValidYet,
    /// The certificate is not valid any more.
    CertExpired,
    /// The certificate's validity period ends before it begins.
    InvalidCertValidity,
    /// No issuer of the certificate was found.
    UnknownIssuer,
    /// The certificate is for another name.
    CertNotValidForName,
    /// A signature does not verify under the given key.
    InvalidSignatureForPublicKey,
    /// A signature's algorithm is not among the supported ones.
    UnsupportedSignatureAlgorithm,
    /// A signature's algorithm does not fit the type of the given key.
    UnsupportedSignatureAlgorithmForPublicKey,
    /// Anything else.
    Other(webpki::Error),
}

/// What a trust anchor consists of.
pub struct TrustAnchorView {
    /// The contents of its DER-encoded subject, without tag and length.
    pub subject: Seq<u8>,
    /// The contents of its DER-encoded public key information.
    pub spki: Seq<u8>,
    /// The contents of its DER-encoded name constraints, if it has any.
    pub name_constraints: Option<Seq<u8>>,
}

/// The name that a certificate is asked to be valid for.
pub enum SubjectName {
    /// A DNS name.
    DnsName(Seq<char>),
    /// The octets of an IPv4 address (4) or of an IPv6 address (16), in network
    /// byte order.
    IpAddress(Seq<u8>),
}

// ---------------------------------------------------------------------------
// What opaque values stand for
// ---------------------------------------------------------------------------

/// Which of the failures that matter here `error` is.
pub uninterp spec fn pki_error_kind(error: webpki::Error) -> PkiError;

/// The DER encoding that `cert` was parsed from.
pub uninterp spec fn end_entity_der(cert: webpki::EndEntityCert<'_>) -> Seq<u8>;

/// The mechanism that `algorithm` describes.
pub uninterp spec fn algorithm_id(algorithm: webpki::SignatureAlgorithm) -> PkiAlgorithm;

/// The fields of `anchor`.
pub uninterp spec fn trust_anchor_view(anchor: webpki::TrustAnchor<'_>) -> TrustAnchorView;

/// The seconds since the Unix epoch that `time` counts.
pub uninterp spec fn time_seconds(time: webpki::Time) -> u64;

/// The text of `name`.
pub uninterp spec fn dns_name_text(name: webpki::DnsNameRef<'_>) -> Seq<char>;

/// The bytes of `digest`.
pub uninterp spec fn digest_value(digest: ring::digest::Digest) -> Seq<u8>;

// ---------------------------------------------------------------------------
// Outcomes of outside calls
// ---------------------------------------------------------------------------

/// Whole seconds from the Unix epoch to `now`; `None` before the epoch.
pub uninterp spec fn unix_seconds(now: SystemTime) -> Option<u64>;

/// Whether `der` is an X.509 certificate that `webpki` can parse as an
/// end-entity certificate, and what is wrong with it otherwise.
pub uninterp spec fn end_entity_parse(der: Seq<u8>) -> Result<(), webpki::Error>;

/// Whether `signature` is one of `message` under the key in the certificate
/// `cert` and the mechanism `algorithm`.
pub uninterp spec fn signature_check(
    cert: Seq<u8>,
    algorithm: PkiAlgorithm,
    message: Seq<u8>,
    signature: Seq<u8>,
) -> Result<(), webpki::Error>;

/// Whether `cert` is valid for use by a TLS server at `time`: whether it chains
/// to one of `anchors` by way of the certificates `chain`, with certificate
/// signatures restricted to `algorithms`.
pub uninterp spec fn server_chain_check(
    cert: Seq<u8>,
    algorithms: Seq<PkiAlgorithm>,
    anchors: Seq<TrustAnchorView>,
    chain: Seq<Seq<u8>>,
    time: u64,
) -> Result<(), webpki::Error>;

/// As [`server_chain_check`], for use by a TLS client.
pub uninterp spec fn client_chain_check(
    cert: Seq<u8>,
    algorithms: Seq<PkiAlgorithm>,
    anchors: Seq<TrustAnchorView>,
    chain: Seq<Seq<u8>>,
    time: u64,
) -> Result<(), webpki::Error>;

/// Whether `name` has the syntax that `webpki` demands of a DNS name.
pub uninterp spec fn is_dns_name(name: Seq<char>) -> bool;

/// Whether the certificate `cert` is valid for `name`.
pub uninterp spec fn subject_name_check(cert: Seq<u8>, name: SubjectName) -> Result<
    (),
    webpki::Error,
>;

/// The mechanisms that a list of `webpki` algorithms describes.
pub open spec fn algorithm_ids(algorithms: Seq<&webpki::SignatureAlgorithm>) -> Seq<
    PkiAlgorithm,
> {
    algorithms.map_values(|a: &webpki::SignatureAlgorithm| algorithm_id(*a))
}

/// The fields of each of a list of `webpki` trust anchors.
pub open spec fn trust_anchor_views(anchors: Seq<webpki::TrustAnchor<'_>>) -> Seq<
    TrustAnchorView,
> {
    anchors.map_values(|a: webpki::TrustAnchor<'_>| trust_anchor_view(a))
}

/// The contents of each of a list of byte slices.
pub open spec fn byte_strings(slices: Seq<&[u8]>) -> Seq<Seq<u8>> {
    slices.map_values(|s: &[u8]| s@)
}

// ---------------------------------------------------------------------------
// Outside calls
// ---------------------------------------------------------------------------

/// Tells the variants of `webpki::Error` apart.
///
/// Assumed: the result is a function of the error alone, and an error that has
/// no variant of its own here is handed over unchanged.  The variants
/// themselves are not visible to a contract, so which one goes where is not
/// stated.
#[verifier::external_body]
pub(crate) fn classify(error: webpki::Error) -> (kind: PkiError)
    ensures
        kind == pki_error_kind(error),
        kind matches PkiError::Other(other) ==> other == error,
{
    match error {
        webpki::Error::BadDer => PkiError::BadDer,
        webpki::Error::BadDerTime => PkiError::BadDerTime,
        webpki::Error::CertNotValidYet => PkiError::CertNotValidYet,
        webpki::Error::CertExpired => PkiError::CertExpired,
        webpki::Error::InvalidCertValidity => PkiError::InvalidCertValidity,
        webpki::Error::UnknownIssuer => PkiError::UnknownIssuer,
        webpki::Error::CertNotValidForName => PkiError::CertNotValidForName,
        webpki::Error::InvalidSignatureForPublicKey => PkiError::InvalidSignatureForPublicKey,
        webpki::Error::UnsupportedSignatureAlgorithm => PkiError::UnsupportedSignatureAlgorithm,
        webpki::Error::UnsupportedSignatureAlgorithmForPublicKey => PkiError::UnsupportedSignatureAlgorithmForPublicKey,
        other => PkiError::Other(other),
    }
}

/// Picks the `webpki` static of the same name.
///
/// Assumed: the static describes the mechanism it is named after.
#[verifier::external_body]
pub(crate) fn webpki_algorithm(algorithm: PkiAlgorithm) -> (found: &'static webpki::SignatureAlgorithm)
    ensures
        algorithm_id(*found) == algorithm,
{
    match algorithm {
        PkiAlgorithm::ECDSA_P256_SHA256 => &webpki::ECDSA_P256_SHA256,
        PkiAlgorithm::ECDSA_P256_SHA384 => &webpki::ECDSA_P256_SHA384,
        PkiAlgorithm::ECDSA_P384_SHA256 => &webpki::ECDSA_P384_SHA256,
        PkiAlgorithm::ECDSA_P384_SHA384 => &webpki::ECDSA_P384_SHA384,
        PkiAlgorithm::ED25519 => &webpki::ED25519,
        PkiAlgorithm::RSA_PSS_2048_8192_SHA256_LEGACY_KEY => &webpki::RSA_PSS_2048_8192_SHA256_LEGACY_KEY,
        PkiAlgorithm::RSA_PSS_2048_8192_SHA384_LEGACY_KEY => &webpki::RSA_PSS_2048_8192_SHA384_LEGACY_KEY,
        PkiAlgorithm::RSA_PSS_2048_8192_SHA512_LEGACY_KEY => &webpki::RSA_PSS_2048_8192_SHA512_LEGACY_KEY,
        PkiAlgorithm::RSA_PKCS1_2048_8192_SHA256 => &webpki::RSA_PKCS1_2048_8192_SHA256,
        PkiAlgorithm::RSA_PKCS1_2048_8192_SHA384 => &webpki::RSA_PKCS1_2048_8192_SHA384,
        PkiAlgorithm::RSA_PKCS1_2048_8192_SHA512 => &webpki::RSA_PKCS1_2048_8192_SHA512,
        PkiAlgorithm::RSA_PKCS1_3072_8192_SHA384 => &webpki::RSA_PKCS1_3072_8192_SHA384,
    }
}

/// `webpki::TrustAnchor`'s constructor.
///
/// Assumed: the anchor consists of the given fields.
#[verifier::external_body]
pub(crate) fn trust_anchor<'a>(
    subject: &'a [u8],
    spki: &'a [u8],
    name_constraints: Option<&'a [u8]>,
) -> (anchor: webpki::TrustAnchor<'a>)
    ensures
        trust_anchor_view(anchor) == (TrustAnchorView {
            subject: subject@,
            spki: spki@,
            name_constraints: match name_constraints {
                Some(constraints) => Some(constraints@),
                None => None,
            },
        }),
{
    webpki::TrustAnchor { subject, spki, name_constraints }
}

/// `webpki::EndEntityCert::try_from`: parses a DER-encoded certificate.
///
/// Assumed: whether it succeeds, and with which error it fails, is a function
/// of the bytes; the certificate stands for exactly those bytes.
#[verifier::external_body]
pub(crate) fn parse_end_entity<'a>(der: &'a [u8]) -> (parsed: Result<
    webpki::EndEntityCert<'a>,
    webpki::Error,
>)
    ensures
        match parsed {
            Ok(cert) => end_entity_parse(der@) is Ok && end_entity_der(cert) == der@,
            Err(error) => end_entity_parse(der@) == Err::<(), webpki::Error>(error),
        },
{
    webpki::EndEntityCert::try_from(der)
}

/// `webpki::EndEntityCert::verify_signature`.
///
/// Assumed: the outcome is a function of the certificate's bytes, the
/// mechanism, the message and the signature; and a failure is that the key in
/// the certificate is malformed, that the mechanism does not fit the key, or that
/// the signature does not verify.
pub assume_specification<'a>[ webpki::EndEntityCert::<'a>::verify_signature ](
    cert: &webpki::EndEntityCert<'a>,
    signature_alg: &webpki::SignatureAlgorithm,
    msg: &[u8],
    signature: &[u8],
) -> (outcome: Result<(), webpki::Error>)
    ensures
        outcome == signature_check(
            end_entity_der(*cert),
            algorithm_id(*signature_alg),
            msg@,
            signature@,
        ),
        outcome matches Err(error) ==> {
            ||| pki_error_kind(error) is BadDer
            ||| pki_error_kind(error) is UnsupportedSignatureAlgorithmForPublicKey
            ||| pki_error_kind(error) is InvalidSignatureForPublicKey
        },
;

/// `webpki::EndEntityCert::verify_is_valid_tls_server_cert`.
///
/// Assumed: the outcome is a function of the certificate's bytes, the
/// mechanisms, the anchors, the intermediate certificates and the time; and
/// nothing chains to no anchor at all.
#[verifier::external_body]
pub(crate) fn verify_server_chain(
    cert: &webpki::EndEntityCert<'_>,
    algorithms: &[&webpki::SignatureAlgorithm],
    anchors: &[webpki::TrustAnchor<'_>],
    chain: &[&[u8]],
    time: webpki::Time,
) -> (outcome: Result<(), webpki::Error>)
    ensures
        outcome == server_chain_check(
            end_entity_der(*cert),
            algorithm_ids(algorithms@),
            trust_anchor_views(anchors@),
            byte_strings(chain@),
            time_seconds(time),
        ),
        anchors@.len() == 0 ==> outcome is Err,
{
    cert.verify_is_valid_tls_server_cert(algorithms, &webpki::TlsServerTrustAnchors(anchors), chain, time)
}

/// `webpki::EndEntityCert::verify_is_valid_tls_client_cert`.
///
/// Assumed: the outcome is a function of the certificate's bytes, the
/// mechanisms, the anchors, the intermediate certificates and the time; and
/// nothing chains to no anchor at all.
#[verifier::external_body]
pub(crate) fn verify_client_chain(
    cert: &webpki::EndEntityCert<'_>,
    algorithms: &[&webpki::SignatureAlgorithm],
    anchors: &[webpki::TrustAnchor<'_>],
    chain: &[&[u8]],
    time: webpki::Time,
) -> (outcome: Result<(), webpki::Error>)
    ensures
        outcome == client_chain_check(
            end_entity_der(*cert),
            algorithm_ids(algorithms@),
            trust_anchor_views(anchors@),
            byte_strings(chain@),
            time_seconds(time),
        ),
        anchors@.len() == 0 ==> outcome is Err,
{
    cert.verify_is_valid_tls_client_cert(algorithms, &webpki::TlsClientTrustAnchors(anchors), chain, time)
}

/// `webpki::DnsNameRef::try_from_ascii_str`: checks the syntax of a DNS name.
///
/// Assumed: whether it succeeds is a function of the text; the name stands for
/// exactly that text.
pub assume_specification<'a>[ webpki::DnsNameRef::<'a>::try_from_ascii_str ](
    dns_name: &'a str,
) -> (checked: Result<webpki::DnsNameRef<'a>, webpki::InvalidDnsNameError>)
    ensures
        match checked {
            Ok(name) => is_dns_name(dns_name@) && dns_name_text(name) == dns_name@,
            Err(_) => !is_dns_name(dns_name@),
        },
;

/// `webpki::EndEntityCert::verify_is_valid_for_subject_name`, for a DNS name.
///
/// Assumed: the outcome is a function of the certificate's bytes and the name.
#[verifier::external_body]
pub(crate) fn verify_dns_name(
    cert: &webpki::EndEntityCert<'_>,
    name: webpki::DnsNameRef<'_>,
) -> (outcome: Result<(), webpki::Error>)
    ensures
        outcome == subject_name_check(
            end_entity_der(*cert),
            SubjectName::DnsName(dns_name_text(name)),
        ),
{
    cert.verify_is_valid_for_subject_name(webpki::SubjectNameRef::DnsName(name))
}

/// `webpki::EndEntityCert::verify_is_valid_for_subject_name`, for an IPv4
/// address.  The address' text is not looked at by the call, and left empty.
///
/// Assumed: the outcome is a function of the certificate's bytes and the
/// octets of the address.
#[verifier::external_body]
pub(crate) fn verify_ipv4_address(cert: &webpki::EndEntityCert<'_>, octets: [u8; 4]) -> (outcome:
    Result<(), webpki::Error>)
    ensures
        outcome == subject_name_check(end_entity_der(*cert), SubjectName::IpAddress(octets@)),
{
    cert.verify_is_valid_for_subject_name(
        webpki::SubjectNameRef::IpAddress(webpki::IpAddrRef::V4(&[], octets)),
    )
}

/// `webpki::EndEntityCert::verify_is_valid_for_subject_name`, for an IPv6
/// address.  The address' text is not looked at by the call, and left empty.
///
/// Assumed: the outcome is a function of the certificate's bytes and the
/// octets of the address.
#[verifier::external_body]
pub(crate) fn verify_ipv6_address(cert: &webpki::EndEntityCert<'_>, octets: [u8; 16]) -> (outcome:
    Result<(), webpki::Error>)
    ensures
        outcome == subject_name_check(end_entity_der(*cert), SubjectName::IpAddress(octets@)),
{
    cert.verify_is_valid_for_subject_name(
        webpki::SubjectNameRef::IpAddress(webpki::IpAddrRef::V6(&[], octets)),
    )
}

/// `webpki::Time::try_from`: the seconds since the Unix epoch.
///
/// Assumed: it fails exactly on a time before the epoch, and otherwise counts
/// the whole seconds since then.
pub assume_specification[ webpki::Time::try_from ](time: SystemTime) -> (converted: Result<
    webpki::Time,
    ring::error::Unspecified,
>)
    ensures
        match converted {
            Ok(t) => unix_seconds(time) == Some(time_seconds(t)),
            Err(_) => unix_seconds(time) is None,
        },
;

/// `ring::digest::Digest`'s `as_ref`.
///
/// Assumed: it gives the bytes of the digest.
#[verifier::external_body]
pub(crate) fn digest_bytes(digest: &ring::digest::Digest) -> (bytes: &[u8])
    ensures
        bytes@ == digest_value(*digest),
{
    digest.as_ref()
}

} // verus!
