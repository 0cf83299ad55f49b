//! Verification of handshake signatures.
use vstd::prelude::*;
use crate::enums::SignatureScheme;
use crate::error::CertificateError;
use crate::error::PeerMisbehaved;
use crate::error::TlsError;
use crate::key;
use crate::key::Certificate;
use crate::key::ParsedCertificate;
use crate::markers;
use crate::markers::HandshakeSignatureValid;
use crate::pki;
use crate::pki::PkiAlgorithm;
use crate::pki::PkiError;
use crate::pki_error;
use crate::signed_struct::DigitallySignedStruct;

verus! {

/// Which signature verification mechanisms are supported.  No particular order.
pub open spec fn supported_algorithms() -> Seq<PkiAlgorithm> {
    seq![
        PkiAlgorithm::ECDSA_P256_SHA256,
        PkiAlgorithm::ECDSA_P256_SHA384,
        PkiAlgorithm::ECDSA_P384_SHA256,
        PkiAlgorithm::ECDSA_P384_SHA384,
        PkiAlgorithm::ED25519,
        PkiAlgorithm::RSA_PSS_2048_8192_SHA256_LEGACY_KEY,
        PkiAlgorithm::RSA_PSS_2048_8192_SHA384_LEGACY_KEY,
        PkiAlgorithm::RSA_PSS_2048_8192_SHA512_LEGACY_KEY,
        PkiAlgorithm::RSA_PKCS1_2048_8192_SHA256,
        PkiAlgorithm::RSA_PKCS1_2048_8192_SHA384,
        PkiAlgorithm::RSA_PKCS1_2048_8192_SHA512,
        PkiAlgorithm::RSA_PKCS1_3072_8192_SHA384,
    ]
}

/// The mechanisms that a certificate signature may be made with.
pub fn supported_sig_algs() -> (algorithms: Vec<&'static webpki::SignatureAlgorithm>)
    ensures
        pki::algorithm_ids(algorithms@) == supported_algorithms(),
{
    let mut algorithms: Vec<&'static webpki::SignatureAlgorithm> = Vec::new();
    algorithms.push(pki::webpki_algorithm(PkiAlgorithm::ECDSA_P256_SHA256));
    algorithms.push(pki::webpki_algorithm(PkiAlgorithm::ECDSA_P256_SHA384));
    algorithms.push(pki::webpki_algorithm(PkiAlgorithm::ECDSA_P384_SHA256));
    algorithms.push(pki::webpki_algorithm(PkiAlgorithm::ECDSA_P384_SHA384));
    algorithms.push(pki::webpki_algorithm(PkiAlgorithm::ED25519));
    algorithms.push(pki::webpki_algorithm(PkiAlgorithm::RSA_PSS_2048_8192_SHA256_LEGACY_KEY));
    algorithms.push(pki::webpki_algorithm(PkiAlgorithm::RSA_PSS_2048_8192_SHA384_LEGACY_KEY));
    algorithms.push(pki::webpki_algorithm(PkiAlgorithm::RSA_PSS_2048_8192_SHA512_LEGACY_KEY));
    algorithms.push(pki::webpki_algorithm(PkiAlgorithm::RSA_PKCS1_2048_8192_SHA256));
    algorithms.push(pki::webpki_algorithm(PkiAlgorithm::RSA_PKCS1_2048_8192_SHA384));
    algorithms.push(pki::webpki_algorithm(PkiAlgorithm::RSA_PKCS1_2048_8192_SHA512));
    algorithms.push(pki::webpki_algorithm(PkiAlgorithm::RSA_PKCS1_3072_8192_SHA384));
    assert(pki::algorithm_ids(algorithms@) =~= supported_algorithms());
    algorithms
}

/// The mechanisms that a TLS 1.2 signature of the given scheme may have been
/// made with, in the order in which they are tried; `None` if the scheme is
/// never offered.
///
/// For TLS 1.2 the curve is not fixed by the scheme.
pub open spec fn tls12_algorithms(scheme: SignatureScheme) -> Option<Seq<PkiAlgorithm>> {
    match scheme {
        SignatureScheme::ECDSA_NISTP256_SHA256 => Some(
            seq![PkiAlgorithm::ECDSA_P256_SHA256, PkiAlgorithm::ECDSA_P384_SHA256],
        ),
        SignatureScheme::ECDSA_NISTP384_SHA384 => Some(
            seq![PkiAlgorithm::ECDSA_P256_SHA384, PkiAlgorithm::ECDSA_P384_SHA384],
        ),
        SignatureScheme::ED25519 => Some(seq![PkiAlgorithm::ED25519]),
        SignatureScheme::RSA_PKCS1_SHA256 => Some(seq![PkiAlgorithm::RSA_PKCS1_2048_8192_SHA256]),
        SignatureScheme::RSA_PKCS1_SHA384 => Some(seq![PkiAlgorithm::RSA_PKCS1_2048_8192_SHA384]),
        SignatureScheme::RSA_PKCS1_SHA512 => Some(seq![PkiAlgorithm::RSA_PKCS1_2048_8192_SHA512]),
        SignatureScheme::RSA_PSS_SHA256 => Some(
            seq![PkiAlgorithm::RSA_PSS_2048_8192_SHA256_LEGACY_KEY],
        ),
        SignatureScheme::RSA_PSS_SHA384 => Some(
            seq![PkiAlgorithm::RSA_PSS_2048_8192_SHA384_LEGACY_KEY],
        ),
        SignatureScheme::RSA_PSS_SHA512 => Some(
            seq![PkiAlgorithm::RSA_PSS_2048_8192_SHA512_LEGACY_KEY],
        ),
        _ => None,
    }
}

/// The mechanism that a TLS 1.3 signature of the given scheme was made with;
/// `None` if the scheme may not be used in TLS 1.3.
pub open spec fn tls13_algorithm(scheme: SignatureScheme) -> Option<PkiAlgorithm> {
    match scheme {
        SignatureScheme::ECDSA_NISTP256_SHA256 => Some(PkiAlgorithm::ECDSA_P256_SHA256),
        SignatureScheme::ECDSA_NISTP384_SHA384 => Some(PkiAlgorithm::ECDSA_P384_SHA384),
        SignatureScheme::ED25519 => Some(PkiAlgorithm::ED25519),
        SignatureScheme::RSA_PSS_SHA256 => Some(PkiAlgorithm::RSA_PSS_2048_8192_SHA256_LEGACY_KEY),
        SignatureScheme::RSA_PSS_SHA384 => Some(PkiAlgorithm::RSA_PSS_2048_8192_SHA384_LEGACY_KEY),
        SignatureScheme::RSA_PSS_SHA512 => Some(PkiAlgorithm::RSA_PSS_2048_8192_SHA512_LEGACY_KEY),
        _ => None,
    }
}

/// What a signature with a scheme that was not offered is answered.
pub open spec fn unadvertised_scheme() -> TlsError {
    TlsError::PeerMisbehaved(PeerMisbehaved::SignedHandshakeWithUnadvertisedSigScheme)
}

/// Looks up the mechanisms for a TLS 1.2 signature scheme.
pub fn convert_scheme(scheme: SignatureScheme) -> (algorithms: Result<Vec<PkiAlgorithm>, TlsError>)
    ensures
        match algorithms {
            Ok(found) => tls12_algorithms(scheme) == Some(found@),
            Err(error) => tls12_algorithms(scheme) is None && error == unadvertised_scheme(),
        },
{
    let algorithms = match scheme {
        // nb. for TLS1.2 the curve is not fixed by SignatureScheme.
        SignatureScheme::ECDSA_NISTP256_SHA256 => vec![
            PkiAlgorithm::ECDSA_P256_SHA256,
            PkiAlgorithm::ECDSA_P384_SHA256,
        ],
        SignatureScheme::ECDSA_NISTP384_SHA384 => vec![
            PkiAlgorithm::ECDSA_P256_SHA384,
            PkiAlgorithm::ECDSA_P384_SHA384,
        ],
        SignatureScheme::ED25519 => vec![PkiAlgorithm::ED25519],
        SignatureScheme::RSA_PKCS1_SHA256 => vec![PkiAlgorithm::RSA_PKCS1_2048_8192_SHA256],
        SignatureScheme::RSA_PKCS1_SHA384 => vec![PkiAlgorithm::RSA_PKCS1_2048_8192_SHA384],
        SignatureScheme::RSA_PKCS1_SHA512 => vec![PkiAlgorithm::RSA_PKCS1_2048_8192_SHA512],
        SignatureScheme::RSA_PSS_SHA256 => vec![PkiAlgorithm::RSA_PSS_2048_8192_SHA256_LEGACY_KEY],
        SignatureScheme::RSA_PSS_SHA384 => vec![PkiAlgorithm::RSA_PSS_2048_8192_SHA384_LEGACY_KEY],
        SignatureScheme::RSA_PSS_SHA512 => vec![PkiAlgorithm::RSA_PSS_2048_8192_SHA512_LEGACY_KEY],
        _ => {
            return Err(TlsError::PeerMisbehaved(PeerMisbehaved::SignedHandshakeWithUnadvertisedSigScheme));
        },
    };
    assert(algorithms@ =~= tls12_algorithms(scheme).unwrap());
    Ok(algorithms)
}

/// Looks up the mechanism for a TLS 1.3 signature scheme.
pub fn convert_alg_tls13(scheme: SignatureScheme) -> (algorithm: Result<PkiAlgorithm, TlsError>)
    ensures
        match algorithm {
            Ok(found) => tls13_algorithm(scheme) == Some(found),
            Err(error) => tls13_algorithm(scheme) is None && error == unadvertised_scheme(),
        },
{
    match scheme {
        SignatureScheme::ECDSA_NISTP256_SHA256 => Ok(PkiAlgorithm::ECDSA_P256_SHA256),
        SignatureScheme::ECDSA_NISTP384_SHA384 => Ok(PkiAlgorithm::ECDSA_P384_SHA384),
        SignatureScheme::ED25519 => Ok(PkiAlgorithm::ED25519),
        SignatureScheme::RSA_PSS_SHA256 => Ok(PkiAlgorithm::RSA_PSS_2048_8192_SHA256_LEGACY_KEY),
        SignatureScheme::RSA_PSS_SHA384 => Ok(PkiAlgorithm::RSA_PSS_2048_8192_SHA384_LEGACY_KEY),
        SignatureScheme::RSA_PSS_SHA512 => Ok(PkiAlgorithm::RSA_PSS_2048_8192_SHA512_LEGACY_KEY),
        _ => Err(TlsError::PeerMisbehaved(PeerMisbehaved::SignedHandshakeWithUnadvertisedSigScheme)),
    }
}

/// Whether a mechanism does not apply to the key in a certificate, so that
/// another one is worth trying.
pub open spec fn is_inapplicable(outcome: Result<(), PkiError>) -> bool {
    outcome == Err::<(), _>(PkiError::UnsupportedSignatureAlgorithmForPublicKey)
}

/// What trying several mechanisms comes to: the outcome of the first one that
/// applies to the key.
pub open spec fn first_applicable(outcomes: Seq<Result<(), PkiError>>) -> Result<(), PkiError>
    decreases outcomes.len(),
{
    if outcomes.len() == 0 {
        Err(PkiError::UnsupportedSignatureAlgorithmForPublicKey)
    } else if is_inapplicable(outcomes[0]) {
        first_applicable(outcomes.skip(1))
    } else {
        outcomes[0]
    }
}

/// The outcomes of verifying a signature by each of several mechanisms.
pub open spec fn signature_outcomes(
    cert: Seq<u8>,
    algorithms: Seq<PkiAlgorithm>,
    message: Seq<u8>,
    sig: Seq<u8>,
) -> Seq<Result<(), PkiError>> {
    algorithms.map_values(
        |algorithm: PkiAlgorithm|
            pki_error::classified(pki::signature_check(cert, algorithm, message, sig)),
    )
}

/// Whether a signature sent in a TLS 1.2 handshake is valid, and what it is
/// answered otherwise.
pub open spec fn tls12_verdict(
    message: Seq<u8>,
    cert: Seq<u8>,
    scheme: SignatureScheme,
    sig: Seq<u8>,
) -> Result<(), TlsError> {
    match tls12_algorithms(scheme) {
        None => Err(unadvertised_scheme()),
        Some(algorithms) => match key::parse_verdict(cert) {
            Err(error) => Err(error),
            Ok(()) => pki_error::reported(
                first_applicable(signature_outcomes(cert, algorithms, message, sig)),
            ),
        },
    }
}

/// Whether a signature sent in a TLS 1.3 handshake is valid, and what it is
/// answered otherwise.
pub open spec fn tls13_verdict(
    message: Seq<u8>,
    cert: Seq<u8>,
    scheme: SignatureScheme,
    sig: Seq<u8>,
) -> Result<(), TlsError> {
    match tls13_algorithm(scheme) {
        None => Err(unadvertised_scheme()),
        Some(algorithm) => match key::parse_verdict(cert) {
            Err(error) => Err(error),
            Ok(()) => pki_error::reported(
                pki_error::classified(pki::signature_check(cert, algorithm, message, sig)),
            ),
        },
    }
}

/// Whether a mechanism does not apply to the key in a certificate, so that
/// another one is worth trying.
pub fn try_next(outcome: &Result<(), PkiError>) -> (inapplicable: bool)
    ensures
        inapplicable == is_inapplicable(*outcome),
{
    match outcome {
        Err(PkiError::UnsupportedSignatureAlgorithmForPublicKey) => true,
        _ => false,
    }
}

/// Whether `error` is one that verifying a signature by itself may come to.
pub open spec fn is_signature_error(error: PkiError) -> bool {
    ||| error is BadDer
    ||| error is UnsupportedSignatureAlgorithmForPublicKey
    ||| error is InvalidSignatureForPublicKey
}

/// Whether `verdict` is one that the signature itself may be given, once the
/// scheme was offered and the certificate parses.
pub open spec fn is_signature_verdict(verdict: Result<(), TlsError>) -> bool {
    ||| verdict is Ok
    ||| verdict == Err::<(), _>(TlsError::InvalidCertificate(CertificateError::BadSignature))
    ||| verdict == Err::<(), _>(TlsError::InvalidCertificate(CertificateError::BadEncoding))
}

/// Verifies a signature by the first of several mechanisms that applies to the
/// key in `cert`.
pub fn verify_sig_using_any_alg(
    cert: &ParsedCertificate<'_>,
    algorithms: &[PkiAlgorithm],
    message: &[u8],
    sig: &[u8],
) -> (outcome: Result<(), PkiError>)
    ensures
        outcome == first_applicable(signature_outcomes(cert@, algorithms@, message@, sig@)),
        outcome matches Err(error) ==> is_signature_error(error),
{
    // TLS doesn't itself give us enough info to map to a single mechanism.
    // Therefore, convert_scheme maps to several and we try them all.
    let ghost outcomes = signature_outcomes(cert@, algorithms@, message@, sig@);
    assert(outcomes.skip(0) =~= outcomes);
    for i in 0..algorithms.len()
        invariant
            outcomes == signature_outcomes(cert@, algorithms@, message@, sig@),
            first_applicable(outcomes) == first_applicable(outcomes.skip(i as int)),
    {
        let result = cert.0.verify_signature(pki::webpki_algorithm(algorithms[i]), message, sig);
        let outcome = pki_error::classify_outcome(result);
        assert(outcome == outcomes[i as int]);
        if !try_next(&outcome) {
            return outcome;
        }
        assert(outcomes.skip(i as int).skip(1) =~= outcomes.skip(i + 1));
    }
    Err(PkiError::UnsupportedSignatureAlgorithmForPublicKey)
}

/// Verifies a signature sent in a TLS 1.2 handshake.
pub fn verify_signed_struct(
    message: &[u8],
    cert: &Certificate,
    dss: &DigitallySignedStruct,
) -> (result: Result<HandshakeSignatureValid, TlsError>)
    ensures
        markers::verdict(result) == tls12_verdict(message@, cert@, dss.scheme, dss.sig_bytes()),
        tls12_algorithms(dss.scheme) is Some && key::parse_verdict(cert@) is Ok
            ==> is_signature_verdict(markers::verdict(result)),
{
    let possible_algs = match convert_scheme(dss.scheme) {
        Ok(algorithms) => algorithms,
        Err(error) => return Err(error),
    };
    let cert = match ParsedCertificate::try_from(cert) {
        Ok(cert) => cert,
        Err(error) => return Err(error),
    };
    let outcome = verify_sig_using_any_alg(
        &cert,
        possible_algs.as_slice(),
        message,
        dss.signature(),
    );
    match pki_error::pki_outcome(outcome) {
        Ok(()) => Ok(HandshakeSignatureValid::assertion()),
        Err(error) => Err(error),
    }
}

/// Verifies a signature sent in a TLS 1.3 handshake.
pub fn verify_tls13(msg: &[u8], cert: &Certificate, dss: &DigitallySignedStruct) -> (result: Result<
    HandshakeSignatureValid,
    TlsError,
>)
    ensures
        markers::verdict(result) == tls13_verdict(msg@, cert@, dss.scheme, dss.sig_bytes()),
        tls13_algorithm(dss.scheme) is Some && key::parse_verdict(cert@) is Ok
            ==> is_signature_verdict(markers::verdict(result)),
{
    let alg = match convert_alg_tls13(dss.scheme) {
        Ok(algorithm) => algorithm,
        Err(error) => return Err(error),
    };
    let cert = match ParsedCertificate::try_from(cert) {
        Ok(cert) => cert,
        Err(error) => return Err(error),
    };
    let outcome = cert.0.verify_signature(pki::webpki_algorithm(alg), msg, dss.signature());
    match pki_error::pki_outcome(pki_error::classify_outcome(outcome)) {
        Ok(()) => Ok(HandshakeSignatureValid::assertion()),
        Err(error) => Err(error),
    }
}

/// The outcome of the first mechanism that applies to the key decides, whatever
/// comes after it.
pub proof fn lemma_first_applicable_decides(outcomes: Seq<Result<(), PkiError>>, first: int)
    requires
        0 <= first < outcomes.len(),
        forall|i: int| 0 <= i < first ==> is_inapplicable(#[trigger] outcomes[i]),
        !is_inapplicable(outcomes[first]),
    ensures
        first_applicable(outcomes) == outcomes[first],
    decreases first,
{
    if first > 0 {
        let rest = outcomes.skip(1);
        assert forall|i: int| 0 <= i < first - 1 implies is_inapplicable(#[trigger] rest[i]) by {
            assert(rest[i] == outcomes[i + 1]);
        }
        assert(is_inapplicable(outcomes[0]));
        lemma_first_applicable_decides(rest, first - 1);
    }
}

/// If no mechanism applies to the key, that is the outcome.
pub proof fn lemma_none_applicable(outcomes: Seq<Result<(), PkiError>>)
    requires
        forall|i: int| 0 <= i < outcomes.len() ==> is_inapplicable(#[trigger] outcomes[i]),
    ensures
        is_inapplicable(first_applicable(outcomes)),
    decreases outcomes.len(),
{
    if outcomes.len() > 0 {
        let rest = outcomes.skip(1);
        assert forall|i: int| 0 <= i < rest.len() implies is_inapplicable(#[trigger] rest[i]) by {
            assert(rest[i] == outcomes[i + 1]);
        }
        lemma_none_applicable(rest);
    }
}

/// Success means that some mechanism succeeded, and none before it applied.
proof fn lemma_success_has_a_mechanism(outcomes: Seq<Result<(), PkiError>>) -> (found: int)
    requires
        first_applicable(outcomes) is Ok,
    ensures
        0 <= found < outcomes.len(),
        outcomes[found] is Ok,
        forall|i: int| 0 <= i < found ==> is_inapplicable(#[trigger] outcomes[i]),
    decreases outcomes.len(),
{
    if is_inapplicable(outcomes[0]) {
        let rest = outcomes.skip(1);
        let found = lemma_success_has_a_mechanism(rest) + 1;
        assert forall|i: int| 0 <= i < found implies is_inapplicable(#[trigger] outcomes[i]) by {
            if i > 0 {
                assert(outcomes[i] == rest[i - 1]);
            }
        }
        found
    } else {
        0
    }
}

/// Whether a signature verifies by the mechanism at `position`, and none before
/// it applies to the key.
pub open spec fn verifies_at(
    message: Seq<u8>,
    cert: Seq<u8>,
    algorithms: Seq<PkiAlgorithm>,
    sig: Seq<u8>,
    position: int,
) -> bool {
    let outcomes = signature_outcomes(cert, algorithms, message, sig);
    &&& 0 <= position < algorithms.len()
    &&& pki::signature_check(cert, algorithms[position], message, sig) is Ok
    &&& forall|i: int| 0 <= i < position ==> is_inapplicable(#[trigger] outcomes[i])
}

/// A TLS 1.2 signature is accepted if and only if its scheme was offered, the
/// certificate parses, and the signature verifies by the first mechanism of the
/// scheme that applies to the key.
pub proof fn lemma_tls12_accepted_iff(
    message: Seq<u8>,
    cert: Seq<u8>,
    scheme: SignatureScheme,
    sig: Seq<u8>,
)
    ensures
        tls12_verdict(message, cert, scheme, sig) is Ok <==> {
            &&& tls12_algorithms(scheme) matches Some(algorithms)
            &&& pki::end_entity_parse(cert) is Ok
            &&& exists|position: int| verifies_at(message, cert, algorithms, sig, position)
        },
{
    if tls12_algorithms(scheme) is Some {
        let algorithms = tls12_algorithms(scheme).unwrap();
        let outcomes = signature_outcomes(cert, algorithms, message, sig);
        if first_applicable(outcomes) is Ok {
            let found = lemma_success_has_a_mechanism(outcomes);
            assert(outcomes[found] == pki_error::classified(
                pki::signature_check(cert, algorithms[found], message, sig),
            ));
            assert(verifies_at(message, cert, algorithms, sig, found));
        }
        if exists|position: int| verifies_at(message, cert, algorithms, sig, position) {
            let position = choose|position: int|
                verifies_at(message, cert, algorithms, sig, position);
            assert(outcomes[position] is Ok);
            lemma_first_applicable_decides(outcomes, position);
        }
    }
}

/// A TLS 1.3 signature is accepted if and only if its scheme may be used there,
/// the certificate parses, and the signature verifies by the one mechanism of
/// the scheme.
pub proof fn lemma_tls13_accepted_iff(
    message: Seq<u8>,
    cert: Seq<u8>,
    scheme: SignatureScheme,
    sig: Seq<u8>,
)
    ensures
        tls13_verdict(message, cert, scheme, sig) is Ok <==> {
            &&& tls13_algorithm(scheme) matches Some(algorithm)
            &&& pki::end_entity_parse(cert) is Ok
            &&& pki::signature_check(cert, algorithm, message, sig) is Ok
        },
{
}

/// TLS 1.3 is tighter than TLS 1.2: a scheme that may be used in TLS 1.3 may be
/// used in TLS 1.2, and its one mechanism there is among those that it has in
/// TLS 1.2.  What TLS 1.3 leaves out are the PKCS#1 schemes.
pub proof fn lemma_tls13_mechanism_is_one_of_tls12(scheme: SignatureScheme)
    ensures
        tls13_algorithm(scheme) matches Some(algorithm) ==> (tls12_algorithms(
            scheme,
        ) matches Some(algorithms) && algorithms.contains(algorithm)),
        tls12_algorithms(scheme) is Some && tls13_algorithm(scheme) is None <==> {
            ||| scheme is RSA_PKCS1_SHA256
            ||| scheme is RSA_PKCS1_SHA384
            ||| scheme is RSA_PKCS1_SHA512
        },
{
    if tls13_algorithm(scheme) is Some {
        let algorithms = tls12_algorithms(scheme).unwrap();
        let algorithm = tls13_algorithm(scheme).unwrap();
        assert(algorithms[0] == algorithm || (algorithms.len() == 2 && algorithms[1] == algorithm));
    }
}

/// Where a scheme stands for the same single mechanism in both versions, the two
/// come to the same verdict on everything.
pub proof fn lemma_versions_agree_on_single_mechanism(
    message: Seq<u8>,
    cert: Seq<u8>,
    scheme: SignatureScheme,
    sig: Seq<u8>,
)
    requires
        tls13_algorithm(scheme) matches Some(algorithm) && tls12_algorithms(scheme) == Some(
            seq![algorithm],
        ),
    ensures
        tls12_verdict(message, cert, scheme, sig) == tls13_verdict(message, cert, scheme, sig),
{
    let algorithms = tls12_algorithms(scheme).unwrap();
    let outcomes = signature_outcomes(cert, algorithms, message, sig);
    if is_inapplicable(outcomes[0]) {
        lemma_none_applicable(outcomes);
    } else {
        lemma_first_applicable_decides(outcomes, 0);
    }
}

/// What is accepted in TLS 1.3 is accepted in TLS 1.2, provided that none of the
/// mechanisms that TLS 1.2 tries first applies to the key.
pub proof fn lemma_tls13_acceptance_carries_over(
    message: Seq<u8>,
    cert: Seq<u8>,
    scheme: SignatureScheme,
    sig: Seq<u8>,
    position: int,
)
    requires
        tls13_verdict(message, cert, scheme, sig) is Ok,
        tls12_algorithms(scheme) matches Some(algorithms) && 0 <= position < algorithms.len()
            && tls13_algorithm(scheme) == Some(algorithms[position]) && forall|i: int|
            0 <= i < position ==> is_inapplicable(
                #[trigger] signature_outcomes(cert, algorithms, message, sig)[i],
            ),
    ensures
        tls12_verdict(message, cert, scheme, sig) is Ok,
{
    let algorithms = tls12_algorithms(scheme).unwrap();
    assert(verifies_at(message, cert, algorithms, sig, position));
    lemma_tls12_accepted_iff(message, cert, scheme, sig);
}

/// Every mechanism that a handshake signature may be made with is one that a
/// certificate signature may be made with.
pub proof fn lemma_handshake_mechanisms_are_supported(
    scheme: SignatureScheme,
    algorithm: PkiAlgorithm,
)
    requires
        tls12_algorithms(scheme) matches Some(algorithms) && algorithms.contains(algorithm),
    ensures
        supported_algorithms().contains(algorithm),
{
    let list = supported_algorithms();
    assert(list[0] == algorithm || list[1] == algorithm || list[2] == algorithm || list[3]
        == algorithm || list[4] == algorithm || list[5] == algorithm || list[6] == algorithm
        || list[7] == algorithm || list[8] == algorithm || list[9] == algorithm || list[10]
        == algorithm || list[11] == algorithm);
}

} // verus!
