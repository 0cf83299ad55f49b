//! The signature schemes of TLS.
use vstd::prelude::*;

verus! {

/// The `SignatureScheme` TLS protocol enum.
#[allow(non_camel_case_types)]
#[derive(Debug, Clone, Copy, PartialEq, Eq, Structural)]
pub enum SignatureScheme {
    RSA_PKCS1_SHA1,
    ECDSA_SHA1_Legacy,
    RSA_PKCS1_SHA256,
    ECDSA_NISTP256_SHA256,
    RSA_PKCS1_SHA384,
    ECDSA_NISTP384_SHA384,
    RSA_PKCS1_SHA512,
    ECDSA_NISTP521_SHA512,
    RSA_PSS_SHA256,
    RSA_PSS_SHA384,
    RSA_PSS_SHA512,
    ED25519,
    ED448,
    /// A code point without a name of its own here.
    Unknown(u16),
}

impl SignatureScheme {
    /// The code point that stands for this scheme on the wire.
    pub open spec fn code(self) -> u16 {
        match self {
            SignatureScheme::RSA_PKCS1_SHA1 => 0x0201,
            SignatureScheme::ECDSA_SHA1_Legacy => 0x0203,
            SignatureScheme::RSA_PKCS1_SHA256 => 0x0401,
            SignatureScheme::ECDSA_NISTP256_SHA256 => 0x0403,
            SignatureScheme::RSA_PKCS1_SHA384 => 0x0501,
            SignatureScheme::ECDSA_NISTP384_SHA384 => 0x0503,
            SignatureScheme::RSA_PKCS1_SHA512 => 0x0601,
            SignatureScheme::ECDSA_NISTP521_SHA512 => 0x0603,
            SignatureScheme::RSA_PSS_SHA256 => 0x0804,
            SignatureScheme::RSA_PSS_SHA384 => 0x0805,
            SignatureScheme::RSA_PSS_SHA512 => 0x0806,
            SignatureScheme::ED25519 => 0x0807,
            SignatureScheme::ED448 => 0x0808,
            SignatureScheme::Unknown(code) => code,
        }
    }

    /// Whether a code point has a scheme with a name.
    pub open spec fn is_named(code: u16) -> bool {
        exists|scheme: SignatureScheme| !(scheme is Unknown) && #[trigger] scheme.code() == code
    }

    /// Whether `Unknown` is used only for code points that have no name.
    pub open spec fn is_canonical(self) -> bool {
        self matches SignatureScheme::Unknown(code) ==> !Self::is_named(code)
    }

    /// The code point that stands for this scheme on the wire.
    pub fn get_u16(&self) -> (code: u16)
        ensures
            code == self.code(),
    {
        match *self {
            SignatureScheme::RSA_PKCS1_SHA1 => 0x0201,
            SignatureScheme::ECDSA_SHA1_Legacy => 0x0203,
            SignatureScheme::RSA_PKCS1_SHA256 => 0x0401,
            SignatureScheme::ECDSA_NISTP256_SHA256 => 0x0403,
            SignatureScheme::RSA_PKCS1_SHA384 => 0x0501,
            SignatureScheme::ECDSA_NISTP384_SHA384 => 0x0503,
            SignatureScheme::RSA_PKCS1_SHA512 => 0x0601,
            SignatureScheme::ECDSA_NISTP521_SHA512 => 0x0603,
            SignatureScheme::RSA_PSS_SHA256 => 0x0804,
            SignatureScheme::RSA_PSS_SHA384 => 0x0805,
            SignatureScheme::RSA_PSS_SHA512 => 0x0806,
            SignatureScheme::ED25519 => 0x0807,
            SignatureScheme::ED448 => 0x0808,
            SignatureScheme::Unknown(code) => code,
        }
    }

    /// The scheme that a code point on the wire stands for.
    pub fn from_u16(code: u16) -> (scheme: Self)
        ensures
            scheme.code() == code,
            scheme.is_canonical(),
    {
        match code {
            0x0201 => SignatureScheme::RSA_PKCS1_SHA1,
            0x0203 => SignatureScheme::ECDSA_SHA1_Legacy,
            0x0401 => SignatureScheme::RSA_PKCS1_SHA256,
            0x0403 => SignatureScheme::ECDSA_NISTP256_SHA256,
            0x0501 => SignatureScheme::RSA_PKCS1_SHA384,
            0x0503 => SignatureScheme::ECDSA_NISTP384_SHA384,
            0x0601 => SignatureScheme::RSA_PKCS1_SHA512,
            0x0603 => SignatureScheme::ECDSA_NISTP521_SHA512,
            0x0804 => SignatureScheme::RSA_PSS_SHA256,
            0x0805 => SignatureScheme::RSA_PSS_SHA384,
            0x0806 => SignatureScheme::RSA_PSS_SHA512,
            0x0807 => SignatureScheme::ED25519,
            0x0808 => SignatureScheme::ED448,
            code => SignatureScheme::Unknown(code),
        }
    }
}

/// A canonical scheme is determined by its code point.
pub proof fn lemma_code_is_injective(a: SignatureScheme, b: SignatureScheme)
    requires
        a.is_canonical(),
        b.is_canonical(),
        a.code() == b.code(),
    ensures
        a == b,
{
    if a !is Unknown {
        assert(SignatureScheme::is_named(a.code()));
    }
    if b !is Unknown {
        assert(SignatureScheme::is_named(b.code()));
    }
}

} // verus!
