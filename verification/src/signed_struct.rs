//! Handshake signatures as they are sent.
use vstd::prelude::*;
use crate::codec;
use crate::codec::Codec;
use crate::codec::PayloadU16;
use crate::codec::Reader;
use crate::enums;
use crate::enums::SignatureScheme;
use crate::error::InvalidMessage;

verus! {

/// This type combines a [`SignatureScheme`] and a signature payload produced
/// with that scheme.
#[derive(Debug)]
pub struct DigitallySignedStruct {
    /// The [`SignatureScheme`] used to produce the signature.
    pub scheme: SignatureScheme,
    /// The signature.
    pub sig: PayloadU16,
}

impl DigitallySignedStruct {
    /// The bytes of the signature.
    pub open spec fn sig_bytes(&self) -> Seq<u8> {
        self.sig.0@
    }

    /// Combines a scheme and a signature.
    pub fn new(scheme: SignatureScheme, sig: Vec<u8>) -> (dss: Self)
        ensures
            dss.scheme == scheme,
            dss.sig_bytes() == sig@,
            dss.sig.0@ == sig@,
    {
        DigitallySignedStruct { scheme, sig: PayloadU16::new(sig) }
    }

    /// Get the signature.
    pub fn signature(&self) -> (sig: &[u8])
        ensures
            sig@ == self.sig_bytes(),
            sig@ == self.sig.0@,
    {
        self.sig.0.as_slice()
    }
}

impl Clone for DigitallySignedStruct {
    fn clone(&self) -> (copy: Self)
        ensures
            copy.scheme == self.scheme,
            copy.sig_bytes() == self.sig_bytes(),
            copy.sig.0@ == self.sig.0@,
    {
        DigitallySignedStruct { scheme: self.scheme, sig: self.sig.clone() }
    }
}

impl Codec for DigitallySignedStruct {
    /// The scheme, then the length of the signature in 16 bits, then the
    /// signature.  The length field wraps around on a signature that is too long
    /// for it.
    open spec fn encoding(&self) -> Seq<u8> {
        codec::be_bytes(self.scheme.code()) + codec::be_bytes(
            (self.sig_bytes().len() % 0x1_0000) as u16,
        ) + self.sig_bytes()
    }

    open spec fn decodes(
        input: Seq<u8>,
        outcome: Result<Self, InvalidMessage>,
        unread: Seq<u8>,
    ) -> bool {
        let length = codec::be_number(input.skip(2)) as int;
        if input.len() < 2 {
            &&& outcome == Err::<DigitallySignedStruct, _>(
                InvalidMessage::MissingData("SignatureScheme"),
            )
            &&& unread == input
        } else if input.len() < 4 {
            &&& outcome == Err::<DigitallySignedStruct, _>(InvalidMessage::MissingData("u16"))
            &&& unread == input.skip(2)
        } else if input.len() < 4 + length {
            &&& outcome == Err::<DigitallySignedStruct, _>(InvalidMessage::MessageTooShort)
            &&& unread == input.skip(4)
        } else {
            &&& outcome matches Ok(dss)
            &&& dss.scheme.is_canonical()
            &&& dss.scheme.code() == codec::be_number(input)
            &&& dss.sig_bytes() == input.subrange(4, 4 + length)
            &&& unread == input.skip(4 + length)
        }
    }

    fn encode(&self, bytes: &mut Vec<u8>)
        ensures
            final(bytes)@.len() == old(bytes)@.len() + 4 + self.sig.0@.len(),
            final(bytes)@.take(old(bytes)@.len() as int) == old(bytes)@,
            final(bytes)@[old(bytes)@.len() as int] * 256 + final(bytes)@[old(bytes)@.len() as int + 1]
                == self.scheme.code(),
            final(bytes)@[old(bytes)@.len() as int + 2] * 256 + final(bytes)@[old(bytes)@.len() as int + 3]
                == self.sig.0@.len() % 0x1_0000,
            forall|i: int|
                0 <= i < self.sig.0@.len() ==> final(bytes)@[old(bytes)@.len() + 4 + i]
                    == #[trigger] self.sig.0@[i],
    {
        let ghost before = bytes@;
        self.scheme.encode(bytes);
        self.sig.encode(bytes);
        assert(bytes@ =~= before + self.encoding());
    }

    fn read(r: &mut Reader<'_>) -> (outcome: Result<Self, InvalidMessage>)
        ensures
            outcome is Ok <==> old(r)@.len() >= 4 && old(r)@.len() >= 4 + old(r)@[2] * 256 + old(
                r,
            )@[3],
            outcome matches Ok(dss) ==> {
                &&& dss.scheme.code() == old(r)@[0] * 256 + old(r)@[1]
                &&& dss.sig.0@.len() == old(r)@[2] * 256 + old(r)@[3]
                &&& final(r)@ == old(r)@.skip(4 + dss.sig.0@.len() as int)
                &&& forall|i: int|
                    0 <= i < dss.sig.0@.len() ==> #[trigger] dss.sig.0@[i] == old(r)@[4 + i]
            },
    {
        let ghost input = r@;
        let scheme = match SignatureScheme::read(r) {
            Ok(scheme) => scheme,
            Err(error) => return Err(error),
        };
        proof {
            let rest = input.skip(2);
            let length = codec::be_number(rest) as int;
            if rest.len() >= 2 {
                assert(rest.skip(2) =~= input.skip(4));
            }
            if rest.len() >= 2 + length {
                assert(rest.subrange(2, 2 + length) =~= input.subrange(4, 4 + length));
                assert(rest.skip(2 + length) =~= input.skip(4 + length));
            }
        }
        let sig = match PayloadU16::read(r) {
            Ok(sig) => sig,
            Err(error) => return Err(error),
        };
        Ok(DigitallySignedStruct { scheme, sig })
    }
}

/// Reading what was written gives it back, and touches nothing behind it.
///
/// A signature of more than 65535 bytes has no encoding of its own, and a
/// scheme that was written as an unknown code point is read under its name if
/// it has one.
pub proof fn lemma_read_of_encoding(
    dss: DigitallySignedStruct,
    behind: Seq<u8>,
    outcome: Result<DigitallySignedStruct, InvalidMessage>,
    unread: Seq<u8>,
)
    requires
        dss.sig_bytes().len() < 0x1_0000,
        dss.scheme.is_canonical(),
        DigitallySignedStruct::decodes(dss.encoding() + behind, outcome, unread),
    ensures
        outcome matches Ok(read) && read.scheme == dss.scheme && read.sig_bytes()
            == dss.sig_bytes(),
        unread == behind,
{
    let input = dss.encoding() + behind;
    let sig = dss.sig_bytes();
    let length = sig.len() as u16;
    codec::lemma_be_bytes_inverse(dss.scheme.code(), seq![0u8, 0u8]);
    codec::lemma_be_bytes_inverse(length, seq![0u8, 0u8]);
    assert(codec::be_number(input) == dss.scheme.code());
    assert(codec::be_number(input.skip(2)) == length);
    assert(input.subrange(4, 4 + sig.len() as int) =~= sig);
    assert(input.skip(4 + sig.len() as int) =~= behind);
    enums::lemma_code_is_injective(outcome->Ok_0.scheme, dss.scheme);
}

/// Writing what was read gives the bytes that it was read from.
pub proof fn lemma_encoding_of_read(
    input: Seq<u8>,
    dss: DigitallySignedStruct,
    unread: Seq<u8>,
)
    requires
        DigitallySignedStruct::decodes(input, Ok(dss), unread),
    ensures
        dss.encoding() + unread == input,
{
    let length = codec::be_number(input.skip(2));
    codec::lemma_be_bytes_inverse(0, input.take(2));
    codec::lemma_be_bytes_inverse(0, input.subrange(2, 4));
    assert(codec::be_number(input.take(2)) == codec::be_number(input));
    assert(codec::be_number(input.subrange(2, 4)) == length);
    assert(dss.encoding() + unread =~= input);
}

} // verus!
