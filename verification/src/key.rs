//! Certificates, as they are sent and as they are parsed.
use vstd::prelude::*;
use crate::error::TlsError;
use crate::pki;
use crate::pki_error;

verus! {

/// A single DER-encoded certificate, not parsed yet.
#[derive(Debug)]
pub struct Certificate(pub Vec<u8>);

impl View for Certificate {
    type V = Seq<u8>;

    open spec fn view(&self) -> Seq<u8> {
        self.0@
    }
}

/// The encodings of a list of certificates.
pub open spec fn encodings(certificates: Seq<Certificate>) -> Seq<Seq<u8>> {
    certificates.map_values(|certificate: Certificate| certificate@)
}

/// An end-entity certificate that was parsed.
///
/// The view of it is the encoding that it was parsed from.
pub struct ParsedCertificate<'a>(pub webpki::EndEntityCert<'a>);

impl<'a> View for ParsedCertificate<'a> {
    type V = Seq<u8>;

    open spec fn view(&self) -> Seq<u8> {
        pki::end_entity_der(self.0)
    }
}

/// Whether `der` can be parsed as an end-entity certificate, and what is
/// reported otherwise.
pub open spec fn parse_verdict(der: Seq<u8>) -> Result<(), TlsError> {
    pki_error::reported(pki_error::classified(pki::end_entity_parse(der)))
}

impl<'a> ParsedCertificate<'a> {
    /// Parses an end-entity certificate.
    pub fn try_from(certificate: &'a Certificate) -> (parsed: Result<
        ParsedCertificate<'a>,
        TlsError,
    >)
        ensures
            match parsed {
                Ok(cert) => parse_verdict(certificate@) is Ok && cert@ == certificate@,
                Err(error) => parse_verdict(certificate@) == Err::<(), _>(error),
            },
    {
        match pki::parse_end_entity(certificate.0.as_slice()) {
            Ok(cert) => Ok(ParsedCertificate(cert)),
            Err(error) => Err(pki_error::pki_error(error)),
        }
    }
}

} // verus!
