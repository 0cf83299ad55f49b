//! The errors that verification and decoding report.
use vstd::prelude::*;

verus! {

/// Why a certificate was not accepted.
#[derive(Debug, Clone, Copy, PartialEq, Eq)]
pub enum CertificateError {
    /// The certificate is not correctly encoded.
    BadEncoding,
    /// The current time is after the `notAfter` time in the certificate.
    Expired,
    /// The current time is before the `notBefore` time in the certificate.
    NotValidYet,
    /// The certificate chain is not issued by a known root certificate.
    UnknownIssuer,
    /// A certificate is not correctly signed by the key of its alleged issuer,
    /// or a handshake signature does not match the certificate's key.
    BadSignature,
    /// The certificate is valid, but the handshake is for a different name.
    NotValidForName,
    /// Any other error, exactly as the certificate library reported it.
    Other(webpki::Error),
}

/// Protocol violations by the peer.
#[derive(Debug, Clone, Copy, PartialEq, Eq)]
pub enum PeerMisbehaved {
    /// The peer signed the handshake with a scheme that was never offered to it.
    SignedHandshakeWithUnadvertisedSigScheme,
}

/// Errors of certificate and signature verification.
#[derive(Debug, Clone, Copy, PartialEq, Eq)]
pub enum TlsError {
    /// The peer's certificate was rejected.
    InvalidCertificate(CertificateError),
    /// The peer deviated from the protocol.
    PeerMisbehaved(PeerMisbehaved),
    /// The current time lies before the Unix epoch.
    FailedToGetCurrentTime,
}

/// A message could not be decoded.
#[derive(Debug, Clone, Copy, PartialEq, Eq)]
pub enum InvalidMessage {
    /// The input ended before a value of the named type.
    MissingData(&'static str),
    /// A length field promises more bytes than there are.
    MessageTooShort,
}

impl From<CertificateError> for TlsError {
    fn from(error: CertificateError) -> (wrapped: Self) {
        TlsError::InvalidCertificate(error)
    }
}

impl vstd::std_specs::convert::FromSpecImpl<CertificateError> for TlsError {
    open spec fn obeys_from_spec() -> bool {
        true
    }

    open spec fn from_spec(error: CertificateError) -> Self {
        TlsError::InvalidCertificate(error)
    }
}

impl From<PeerMisbehaved> for TlsError {
    fn from(error: PeerMisbehaved) -> (wrapped: Self) {
        TlsError::PeerMisbehaved(error)
    }
}

impl vstd::std_specs::convert::FromSpecImpl<PeerMisbehaved> for TlsError {
    open spec fn obeys_from_spec() -> bool {
        true
    }

    open spec fn from_spec(error: PeerMisbehaved) -> Self {
        TlsError::PeerMisbehaved(error)
    }
}

} // verus!
