//! Encoding and decoding of TLS wire values.
use vstd::prelude::*;
use vstd::slice::slice_subrange;
use vstd::slice::slice_to_vec;
use crate::enums::SignatureScheme;
use crate::error::InvalidMessage;

verus! {

/// Wraps a slice of bytes and hands it out from the front.
///
/// The view of a reader is the bytes that it has not handed out yet.
pub struct Reader<'a> {
    unread: &'a [u8],
}

impl<'a> View for Reader<'a> {
    type V = Seq<u8>;

    closed spec fn view(&self) -> Seq<u8> {
        self.unread@
    }
}

impl<'a> Reader<'a> {
    /// Creates a reader of all of `bytes`.
    pub fn init(bytes: &'a [u8]) -> (reader: Self)
        ensures
            reader@ == bytes@,
    {
        Reader { unread: bytes }
    }

    /// Hands out the next `length` bytes, or nothing if there are not that many.
    pub fn take(&mut self, length: usize) -> (taken: Option<&'a [u8]>)
        ensures
            match taken {
                Some(bytes) => {
                    &&& length <= old(self)@.len()
                    &&& bytes@ == old(self)@.take(length as int)
                    &&& final(self)@ == old(self)@.skip(length as int)
                },
                None => length > old(self)@.len() && final(self)@ == old(self)@,
            },
    {
        let unread = self.unread;
        if unread.len() < length {
            return None;
        }
        let bytes = slice_subrange(unread, 0, length);
        self.unread = slice_subrange(unread, length, unread.len());
        Some(bytes)
    }

    /// Hands out everything that is left.
    pub fn rest(&mut self) -> (bytes: &'a [u8])
        ensures
            bytes@ == old(self)@,
            final(self)@ == Seq::<u8>::empty(),
    {
        let unread = self.unread;
        self.unread = slice_subrange(unread, unread.len(), unread.len());
        unread
    }

    /// How many bytes are left.
    pub fn left(&self) -> (count: usize)
        ensures
            count == self@.len(),
    {
        self.unread.len()
    }

    /// A reader of the next `length` bytes, which this one skips.
    pub fn sub(&mut self, length: usize) -> (reader: Result<Reader<'a>, InvalidMessage>)
        ensures
            match reader {
                Ok(inner) => {
                    &&& length <= old(self)@.len()
                    &&& inner@ == old(self)@.take(length as int)
                    &&& final(self)@ == old(self)@.skip(length as int)
                },
                Err(error) => {
                    &&& length > old(self)@.len()
                    &&& error == InvalidMessage::MessageTooShort
                    &&& final(self)@ == old(self)@
                },
            },
    {
        match self.take(length) {
            Some(bytes) => Ok(Reader::init(bytes)),
            None => Err(InvalidMessage::MessageTooShort),
        }
    }
}

/// Things that are sent on the wire.
pub trait Codec: Sized {
    /// The bytes that stand for this value.
    spec fn encoding(&self) -> Seq<u8>;

    /// Whether reading a value from `input` comes to `outcome`, with `unread`
    /// left over.
    spec fn decodes(
        input: Seq<u8>,
        outcome: Result<Self, InvalidMessage>,
        unread: Seq<u8>,
    ) -> bool;

    /// Appends the bytes that stand for this value to `bytes`.
    fn encode(&self, bytes: &mut Vec<u8>)
        ensures
            final(bytes)@ == old(bytes)@ + self.encoding(),
    ;

    /// Reads a value off the front of `r`.
    fn read(r: &mut Reader<'_>) -> (outcome: Result<Self, InvalidMessage>)
        ensures
            Self::decodes(old(r)@, outcome, final(r)@),
    ;
}

/// The two bytes of `n`, the more significant one first.
pub open spec fn be_bytes(n: u16) -> Seq<u8> {
    seq![(n / 256) as u8, (n % 256) as u8]
}

/// The number whose two bytes are at the front of `bytes`, the more significant
/// one first.
pub open spec fn be_number(bytes: Seq<u8>) -> u16 {
    (bytes[0] * 256 + bytes[1]) as u16
}

/// Taking a number apart and putting a number together undo each other.
pub proof fn lemma_be_bytes_inverse(n: u16, bytes: Seq<u8>)
    requires
        bytes.len() == 2,
    ensures
        be_number(be_bytes(n)) == n,
        be_bytes(be_number(bytes)) == bytes,
{
    assert(be_bytes(be_number(bytes)) =~= bytes);
}

impl Codec for u16 {
    open spec fn encoding(&self) -> Seq<u8> {
        be_bytes(*self)
    }

    open spec fn decodes(
        input: Seq<u8>,
        outcome: Result<Self, InvalidMessage>,
        unread: Seq<u8>,
    ) -> bool {
        if input.len() < 2 {
            outcome == Err::<u16, _>(InvalidMessage::MissingData("u16")) && unread == input
        } else {
            outcome == Ok::<_, InvalidMessage>(be_number(input)) && unread == input.skip(2)
        }
    }

    fn encode(&self, bytes: &mut Vec<u8>)
        ensures
            final(bytes)@.len() == old(bytes)@.len() + 2,
            final(bytes)@.take(old(bytes)@.len() as int) == old(bytes)@,
            final(bytes)@[old(bytes)@.len() as int] * 256 + final(bytes)@[old(bytes)@.len() as int + 1]
                == *self,
    {
        bytes.push((*self / 256) as u8);
        bytes.push((*self % 256) as u8);
    }

    fn read(r: &mut Reader<'_>) -> (outcome: Result<Self, InvalidMessage>)
        ensures
            outcome is Ok <==> old(r)@.len() >= 2,
            outcome matches Ok(n) ==> n == old(r)@[0] * 256 + old(r)@[1] && final(r)@ == old(
                r,
            )@.skip(2),
    {
        match r.take(2) {
            Some(b) => Ok(b[0] as u16 * 256 + b[1] as u16),
            None => Err(InvalidMessage::MissingData("u16")),
        }
    }
}

impl Codec for SignatureScheme {
    open spec fn encoding(&self) -> Seq<u8> {
        be_bytes(self.code())
    }

    open spec fn decodes(
        input: Seq<u8>,
        outcome: Result<Self, InvalidMessage>,
        unread: Seq<u8>,
    ) -> bool {
        match outcome {
            Ok(scheme) => {
                &&& input.len() >= 2
                &&& scheme.is_canonical()
                &&& scheme.code() == be_number(input)
                &&& unread == input.skip(2)
            },
            Err(error) => {
                &&& input.len() < 2
                &&& error == InvalidMessage::MissingData("SignatureScheme")
                &&& unread == input
            },
        }
    }

    fn encode(&self, bytes: &mut Vec<u8>) {
        self.get_u16().encode(bytes);
    }

    fn read(r: &mut Reader<'_>) -> (outcome: Result<Self, InvalidMessage>) {
        match u16::read(r) {
            Ok(code) => Ok(SignatureScheme::from_u16(code)),
            Err(_) => Err(InvalidMessage::MissingData("SignatureScheme")),
        }
    }
}

/// An arbitrary, unknown-content payload, preceded by its length in 16 bits on
/// the wire.
#[derive(Debug)]
pub struct PayloadU16(pub Vec<u8>);

impl PayloadU16 {
    /// Wraps `bytes`.
    pub fn new(bytes: Vec<u8>) -> (payload: Self)
        ensures
            payload.0 == bytes,
    {
        PayloadU16(bytes)
    }
}

impl Clone for PayloadU16 {
    fn clone(&self) -> (copy: Self)
        ensures
            copy.0@ == self.0@,
    {
        PayloadU16(self.0.clone())
    }
}

impl Codec for PayloadU16 {
    /// The length field wraps around on a payload that is too long for it.
    open spec fn encoding(&self) -> Seq<u8> {
        be_bytes((self.0@.len() % 0x1_0000) as u16) + self.0@
    }

    open spec fn decodes(
        input: Seq<u8>,
        outcome: Result<Self, InvalidMessage>,
        unread: Seq<u8>,
    ) -> bool {
        let length = be_number(input) as int;
        if input.len() < 2 {
            &&& outcome == Err::<PayloadU16, _>(InvalidMessage::MissingData("u16"))
            &&& unread == input
        } else if input.len() < 2 + length {
            &&& outcome == Err::<PayloadU16, _>(InvalidMessage::MessageTooShort)
            &&& unread == input.skip(2)
        } else {
            &&& outcome matches Ok(payload)
            &&& payload.0@ == input.subrange(2, 2 + length)
            &&& unread == input.skip(2 + length)
        }
    }

    fn encode(&self, bytes: &mut Vec<u8>)
        ensures
            final(bytes)@.len() == old(bytes)@.len() + 2 + self.0@.len(),
            final(bytes)@.take(old(bytes)@.len() as int) == old(bytes)@,
            final(bytes)@[old(bytes)@.len() as int] * 256 + final(bytes)@[old(bytes)@.len() as int + 1]
                == self.0@.len() % 0x1_0000,
            forall|i: int|
                0 <= i < self.0@.len() ==> final(bytes)@[old(bytes)@.len() + 2 + i]
                    == #[trigger] self.0@[i],
    {
        let ghost before = bytes@;
        let length = (self.0.len() % 0x1_0000) as u16;
        length.encode(bytes);
        bytes.extend_from_slice(self.0.as_slice());
        assert(bytes@ =~= before + self.encoding());
    }

    fn read(r: &mut Reader<'_>) -> (outcome: Result<Self, InvalidMessage>)
        ensures
            outcome is Ok <==> old(r)@.len() >= 2 && old(r)@.len() >= 2 + old(r)@[0] * 256 + old(
                r,
            )@[1],
            outcome matches Ok(payload) ==> {
                &&& payload.0@.len() == old(r)@[0] * 256 + old(r)@[1]
                &&& final(r)@ == old(r)@.skip(2 + payload.0@.len() as int)
                &&& forall|i: int|
                    0 <= i < payload.0@.len() ==> #[trigger] payload.0@[i] == old(r)@[2 + i]
            },
    {
        let ghost input = r@;
        let length = match u16::read(r) {
            Ok(length) => length as usize,
            Err(error) => return Err(error),
        };
        let mut sub = match r.sub(length) {
            Ok(sub) => sub,
            Err(error) => return Err(error),
        };
        let body = slice_to_vec(sub.rest());
        proof {
            assert(input.skip(2).take(length as int) =~= input.subrange(2, 2 + length));
            assert(input.skip(2).skip(length as int) =~= input.skip(2 + length));
        }
        Ok(PayloadU16(body))
    }
}

} // verus!
