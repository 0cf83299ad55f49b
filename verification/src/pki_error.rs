//! How failures of certificate processing are reported.
use vstd::prelude::*;
use crate::error::CertificateError;
use crate::error::TlsError;
use crate::pki;
use crate::pki::PkiError;

verus! {

/// What `error` is reported as.
pub open spec fn certificate_error_of(error: PkiError) -> CertificateError {
    match error {
        PkiError::BadDer | PkiError::BadDerTime => CertificateError::BadEncoding,
        PkiError::CertNotValidYet => CertificateError::NotValidYet,
        PkiError::CertExpired | PkiError::InvalidCertValidity => CertificateError::Expired,
        PkiError::UnknownIssuer => CertificateError::UnknownIssuer,
        PkiError::CertNotValidForName => CertificateError::NotValidForName,
        PkiError::InvalidSignatureForPublicKey
        | PkiError::UnsupportedSignatureAlgorithm
        | PkiError::UnsupportedSignatureAlgorithmForPublicKey => CertificateError::BadSignature,
        PkiError::Other(other) => CertificateError::Other(other),
    }
}

/// The outcome of an outside call, with its failure told apart.
pub open spec fn classified(outcome: Result<(), webpki::Error>) -> Result<(), PkiError> {
    match outcome {
        Ok(()) => Ok(()),
        Err(error) => Err(pki::pki_error_kind(error)),
    }
}

/// What the outcome of certificate processing is reported as.
pub open spec fn reported(outcome: Result<(), PkiError>) -> Result<(), TlsError> {
    match outcome {
        Ok(()) => Ok(()),
        Err(error) => Err(TlsError::InvalidCertificate(certificate_error_of(error))),
    }
}

/// Reports `error`.
pub fn certificate_error(error: PkiError) -> (reported: CertificateError)
    ensures
        reported == certificate_error_of(error),
{
    match error {
        PkiError::BadDer | PkiError::BadDerTime => CertificateError::BadEncoding,
        PkiError::CertNotValidYet => CertificateError::NotValidYet,
        PkiError::CertExpired | PkiError::InvalidCertValidity => CertificateError::Expired,
        PkiError::UnknownIssuer => CertificateError::UnknownIssuer,
        PkiError::CertNotValidForName => CertificateError::NotValidForName,
        PkiError::InvalidSignatureForPublicKey
        | PkiError::UnsupportedSignatureAlgorithm
        | PkiError::UnsupportedSignatureAlgorithmForPublicKey => CertificateError::BadSignature,
        PkiError::Other(other) => CertificateError::Other(other),
    }
}

/// Reports a failure of certificate processing.
pub fn pki_error(error: webpki::Error) -> (reported: TlsError)
    ensures
        reported == TlsError::InvalidCertificate(certificate_error_of(pki::pki_error_kind(error))),
        pki::pki_error_kind(error) is Other ==> reported == TlsError::InvalidCertificate(
            CertificateError::Other(error),
        ),
{
    TlsError::InvalidCertificate(certificate_error(pki::classify(error)))
}

/// Tells the failures of an outside call apart.
pub fn classify_outcome(outcome: Result<(), webpki::Error>) -> (r: Result<(), PkiError>)
    ensures
        r == classified(outcome),
{
    match outcome {
        Ok(()) => Ok(()),
        Err(error) => Err(pki::classify(error)),
    }
}

/// Reports the outcome of certificate processing.
pub fn pki_outcome(outcome: Result<(), PkiError>) -> (r: Result<(), TlsError>)
    ensures
        r == reported(outcome),
{
    match outcome {
        Ok(()) => Ok(()),
        Err(error) => Err(TlsError::InvalidCertificate(certificate_error(error))),
    }
}

} // verus!
