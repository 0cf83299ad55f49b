//! The message that a TLS 1.3 `CertificateVerify` signature covers.
use vstd::prelude::*;
use ring::digest::Digest;
use crate::pki;

verus! {

/// The bytes of an ASCII text, followed by a zero byte.
pub open spec fn zero_terminated(text: Seq<char>) -> Seq<u8> {
    text.map_values(|c: char| c as u8).push(0)
}

/// The content that a TLS 1.3 handshake signature covers, as section 4.4.3 of
/// RFC 8446 gives it: 64 spaces, a zero-terminated context string and the hash
/// of the handshake so far.
pub open spec fn tls13_verify_message(handshake_hash: Seq<u8>, context_with_0: Seq<u8>) -> Seq<u8> {
    Seq::new(64, |i: int| 0x20u8) + context_with_0 + handshake_hash
}

/// The content that a client signs.
pub open spec fn tls13_client_verify_message(handshake_hash: Seq<u8>) -> Seq<u8> {
    tls13_verify_message(handshake_hash, zero_terminated("TLS 1.3, client CertificateVerify"@))
}

/// The content that a server signs.
pub open spec fn tls13_server_verify_message(handshake_hash: Seq<u8>) -> Seq<u8> {
    tls13_verify_message(handshake_hash, zero_terminated("TLS 1.3, server CertificateVerify"@))
}

/// What a client signs is never what a server signs, whatever the two
/// handshakes are: neither signature can be passed off as the other.
pub proof fn lemma_client_and_server_messages_differ(client_hash: Seq<u8>, server_hash: Seq<u8>)
    ensures
        tls13_client_verify_message(client_hash) != tls13_server_verify_message(server_hash),
{
    reveal_strlit("TLS 1.3, client CertificateVerify");
    reveal_strlit("TLS 1.3, server CertificateVerify");
    assert(tls13_client_verify_message(client_hash)[73] == 'c' as u8);
    assert(tls13_server_verify_message(server_hash)[73] == 's' as u8);
}

/// The signed content determines the handshake hash.
pub proof fn lemma_message_determines_hash(
    first_hash: Seq<u8>,
    second_hash: Seq<u8>,
    context_with_0: Seq<u8>,
)
    requires
        tls13_verify_message(first_hash, context_with_0) == tls13_verify_message(
            second_hash,
            context_with_0,
        ),
    ensures
        first_hash == second_hash,
{
    let first = tls13_verify_message(first_hash, context_with_0);
    let second = tls13_verify_message(second_hash, context_with_0);
    let start = 64 + context_with_0.len() as int;
    assert(first_hash =~= first.skip(start));
    assert(second_hash =~= second.skip(start));
}

/// Constructs the signature message specified in section 4.4.3 of RFC 8446.
pub fn construct_tls13_client_verify_message(handshake_hash: &Digest) -> (message: Vec<u8>)
    ensures
        message@ == tls13_client_verify_message(pki::digest_value(*handshake_hash)),
        message@.len() == 98 + pki::digest_value(*handshake_hash).len(),
        forall|i: int| 0 <= i < 64 ==> #[trigger] message@[i] == 0x20,
        forall|i: int|
            0 <= i < 33 ==> message@[64 + i]
                == #[trigger] "TLS 1.3, client CertificateVerify"@[i] as u8,
        message@[97] == 0,
        message@.skip(98) == pki::digest_value(*handshake_hash),
{
    let context = "TLS 1.3, client CertificateVerify\x00";
    proof {
        reveal_strlit("TLS 1.3, client CertificateVerify\x00");
        reveal_strlit("TLS 1.3, client CertificateVerify");
        vstd::string::is_ascii_spec_bytes(context);
    }
    let context_with_0 = context.as_bytes();
    assert(context_with_0@ =~= zero_terminated("TLS 1.3, client CertificateVerify"@));
    construct_tls13_verify_message(handshake_hash, context_with_0)
}

/// Constructs the signature message specified in section 4.4.3 of RFC 8446.
pub fn construct_tls13_server_verify_message(handshake_hash: &Digest) -> (message: Vec<u8>)
    ensures
        message@ == tls13_server_verify_message(pki::digest_value(*handshake_hash)),
        message@.len() == 98 + pki::digest_value(*handshake_hash).len(),
        forall|i: int| 0 <= i < 64 ==> #[trigger] message@[i] == 0x20,
        forall|i: int|
            0 <= i < 33 ==> message@[64 + i]
                == #[trigger] "TLS 1.3, server CertificateVerify"@[i] as u8,
        message@[97] == 0,
        message@.skip(98) == pki::digest_value(*handshake_hash),
{
    let context = "TLS 1.3, server CertificateVerify\x00";
    proof {
        reveal_strlit("TLS 1.3, server CertificateVerify\x00");
        reveal_strlit("TLS 1.3, server CertificateVerify");
        vstd::string::is_ascii_spec_bytes(context);
    }
    let context_with_0 = context.as_bytes();
    assert(context_with_0@ =~= zero_terminated("TLS 1.3, server CertificateVerify"@));
    construct_tls13_verify_message(handshake_hash, context_with_0)
}

/// Constructs the signature message for a digest and a context string.
pub fn construct_tls13_verify_message(
    handshake_hash: &Digest,
    context_string_with_0: &[u8],
) -> (message: Vec<u8>)
    ensures
        message@ == tls13_verify_message(
            pki::digest_value(*handshake_hash),
            context_string_with_0@,
        ),
        message@.len() == 64 + context_string_with_0@.len() + pki::digest_value(
            *handshake_hash,
        ).len(),
        forall|i: int| 0 <= i < 64 ==> #[trigger] message@[i] == 0x20,
        message@.subrange(64, 64 + context_string_with_0@.len() as int) == context_string_with_0@,
        message@.skip(64 + context_string_with_0@.len() as int) == pki::digest_value(*handshake_hash),
{
    verify_message_for_hash(pki::digest_bytes(handshake_hash), context_string_with_0)
}

/// Constructs the signature message for the bytes of a digest.
pub fn verify_message_for_hash(handshake_hash: &[u8], context_string_with_0: &[u8]) -> (message:
    Vec<u8>)
    ensures
        message@ == tls13_verify_message(handshake_hash@, context_string_with_0@),
        message@.len() == 64 + context_string_with_0@.len() + handshake_hash@.len(),
        forall|i: int| 0 <= i < 64 ==> #[trigger] message@[i] == 0x20,
        message@.subrange(64, 64 + context_string_with_0@.len() as int) == context_string_with_0@,
        message@.skip(64 + context_string_with_0@.len() as int) == handshake_hash@,
{
    let mut msg: Vec<u8> = Vec::new();
    msg.resize(64, 0x20u8);
    msg.extend_from_slice(context_string_with_0);
    msg.extend_from_slice(handshake_hash);
    assert(msg@ =~= tls13_verify_message(handshake_hash@, context_string_with_0@));
    msg
}

} // verus!
