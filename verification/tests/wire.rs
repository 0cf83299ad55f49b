//! Encoding, decoding and the TLS 1.3 signature message.
use rustls_verify::anchors::OwnedTrustAnchor;
use rustls_verify::codec::{Codec, PayloadU16, Reader};
use rustls_verify::enums::SignatureScheme;
use rustls_verify::error::InvalidMessage;
use rustls_verify::message::{
    construct_tls13_client_verify_message, construct_tls13_server_verify_message,
    construct_tls13_verify_message, verify_message_for_hash,
};
use rustls_verify::signed_struct::DigitallySignedStruct;

fn encoding_of(dss: &DigitallySignedStruct) -> Vec<u8> {
    let mut bytes = Vec::new();
    dss.encode(&mut bytes);
    bytes
}

#[test]
fn signed_struct_encoding() {
    let dss = DigitallySignedStruct::new(SignatureScheme::ED25519, vec![1, 2, 3]);
    let mut bytes = vec![0xff];
    dss.encode(&mut bytes);
    assert_eq!(bytes, vec![0xff, 0x08, 0x07, 0x00, 0x03, 1, 2, 3]);
    assert_eq!(dss.signature(), &[1, 2, 3]);
}

#[test]
fn signed_struct_is_read_back() {
    let dss = DigitallySignedStruct::new(SignatureScheme::RSA_PSS_SHA512, vec![9; 300]);
    let mut bytes = encoding_of(&dss);
    assert_eq!(&bytes[..4], &[0x08, 0x06, 0x01, 0x2c]);
    bytes.extend_from_slice(&[5, 6]);
    let mut reader = Reader::init(&bytes);
    let read = DigitallySignedStruct::read(&mut reader).unwrap();
    assert_eq!(read.scheme, SignatureScheme::RSA_PSS_SHA512);
    assert_eq!(read.signature(), &[9; 300][..]);
    assert_eq!(reader.left(), 2);
    assert_eq!(reader.rest(), &[5, 6]);
    assert_eq!(encoding_of(&read.clone()), bytes[..304].to_vec());
}

#[test]
fn longest_signature_is_read_back() {
    let dss = DigitallySignedStruct::new(SignatureScheme::ED25519, vec![1; 0xffff]);
    let bytes = encoding_of(&dss);
    let mut reader = Reader::init(&bytes);
    let read = DigitallySignedStruct::read(&mut reader).unwrap();
    assert_eq!(read.signature().len(), 0xffff);
    assert_eq!(reader.left(), 0);
}

#[test]
fn length_field_wraps_around() {
    let dss = DigitallySignedStruct::new(SignatureScheme::ED25519, vec![1; 0x1_0001]);
    let bytes = encoding_of(&dss);
    assert_eq!(&bytes[..4], &[0x08, 0x07, 0x00, 0x01]);
    assert_eq!(bytes.len(), 4 + 0x1_0001);
}

#[test]
fn short_inputs_are_refused() {
    let failure = |bytes: &[u8]| {
        let mut reader = Reader::init(bytes);
        let error = DigitallySignedStruct::read(&mut reader).unwrap_err();
        (error, reader.left())
    };
    let no_scheme = InvalidMessage::MissingData("SignatureScheme");
    let no_length = InvalidMessage::MissingData("u16");
    assert_eq!(failure(&[]), (no_scheme, 0));
    assert_eq!(failure(&[8]), (no_scheme, 1));
    assert_eq!(failure(&[8, 7]), (no_length, 0));
    assert_eq!(failure(&[8, 7, 0]), (no_length, 1));
    assert_eq!(failure(&[8, 7, 0, 2]), (InvalidMessage::MessageTooShort, 0));
    assert_eq!(failure(&[8, 7, 0, 2, 1]), (InvalidMessage::MessageTooShort, 1));
    assert_eq!(failure(&[8, 7, 1, 0, 1]), (InvalidMessage::MessageTooShort, 1));
    let mut reader = Reader::init(&[8, 7, 0, 0]);
    assert!(DigitallySignedStruct::read(&mut reader).unwrap().signature().is_empty());
}

#[test]
fn every_code_point_survives() {
    for code in 0..=0xffffu16 {
        let scheme = SignatureScheme::from_u16(code);
        assert_eq!(scheme.get_u16(), code);
        assert_eq!(SignatureScheme::from_u16(scheme.get_u16()), scheme);
    }
}

#[test]
fn named_code_points() {
    for (code, scheme) in [
        (0x0201, SignatureScheme::RSA_PKCS1_SHA1),
        (0x0203, SignatureScheme::ECDSA_SHA1_Legacy),
        (0x0401, SignatureScheme::RSA_PKCS1_SHA256),
        (0x0403, SignatureScheme::ECDSA_NISTP256_SHA256),
        (0x0501, SignatureScheme::RSA_PKCS1_SHA384),
        (0x0503, SignatureScheme::ECDSA_NISTP384_SHA384),
        (0x0601, SignatureScheme::RSA_PKCS1_SHA512),
        (0x0603, SignatureScheme::ECDSA_NISTP521_SHA512),
        (0x0804, SignatureScheme::RSA_PSS_SHA256),
        (0x0805, SignatureScheme::RSA_PSS_SHA384),
        (0x0806, SignatureScheme::RSA_PSS_SHA512),
        (0x0807, SignatureScheme::ED25519),
        (0x0808, SignatureScheme::ED448),
        (0x0809, SignatureScheme::Unknown(0x0809)),
    ] {
        assert_eq!(SignatureScheme::from_u16(code), scheme);
    }
}

#[test]
fn unknown_name_of_a_named_code_point_is_read_under_its_name() {
    let dss = DigitallySignedStruct::new(SignatureScheme::Unknown(0x0807), vec![]);
    let bytes = encoding_of(&dss);
    let read = DigitallySignedStruct::read(&mut Reader::init(&bytes)).unwrap();
    assert_eq!(read.scheme, SignatureScheme::ED25519);
}

#[test]
fn payload_and_number_codecs() {
    let mut bytes = Vec::new();
    0x1234u16.encode(&mut bytes);
    PayloadU16::new(vec![7]).encode(&mut bytes);
    assert_eq!(bytes, vec![0x12, 0x34, 0, 1, 7]);
    let mut reader = Reader::init(&bytes);
    assert_eq!(u16::read(&mut reader), Ok(0x1234));
    assert_eq!(PayloadU16::read(&mut reader).unwrap().0, vec![7]);
    assert_eq!(u16::read(&mut reader), Err(InvalidMessage::MissingData("u16")));
}

#[test]
fn readers_hand_out_bytes_in_order() {
    let mut reader = Reader::init(&[1, 2, 3, 4]);
    assert_eq!(reader.take(0), Some(&[][..]));
    assert_eq!(reader.take(1), Some(&[1][..]));
    assert_eq!(reader.take(4), None);
    assert_eq!(reader.left(), 3);
    let mut sub = reader.sub(2).unwrap();
    assert_eq!(sub.rest(), &[2, 3]);
    assert_eq!(sub.left(), 0);
    assert_eq!(reader.sub(2).err(), Some(InvalidMessage::MessageTooShort));
    assert_eq!(reader.rest(), &[4]);
}

#[test]
fn tls13_messages() {
    let digest = ring::digest::digest(&ring::digest::SHA256, b"abc");
    let hash: [u8; 32] = [
        0xba, 0x78, 0x16, 0xbf, 0x8f, 0x01, 0xcf, 0xea, 0x41, 0x41, 0x40, 0xde, 0x5d, 0xae, 0x22,
        0x23, 0xb0, 0x03, 0x61, 0xa3, 0x96, 0x17, 0x7a, 0x9c, 0xb4, 0x10, 0xff, 0x61, 0xf2, 0x00,
        0x15, 0xad,
    ];
    let client = construct_tls13_client_verify_message(&digest);
    let server = construct_tls13_server_verify_message(&digest);
    assert_eq!(&client[..64], &[0x20; 64][..]);
    assert_eq!(&client[64..98], &b"TLS 1.3, client CertificateVerify\x00"[..]);
    assert_eq!(&client[98..], &hash[..]);
    assert_eq!(&server[..64], &[0x20; 64][..]);
    assert_eq!(&server[64..98], &b"TLS 1.3, server CertificateVerify\x00"[..]);
    assert_eq!(&server[98..], &hash[..]);
    assert_ne!(client, server);
    assert_eq!(client.len(), 130);
    let other = ring::digest::digest(&ring::digest::SHA256, b"abd");
    assert_ne!(client, construct_tls13_client_verify_message(&other));
}

#[test]
fn tls13_message_parts() {
    let digest = ring::digest::digest(&ring::digest::SHA384, b"");
    let message = construct_tls13_verify_message(&digest, b"context\x00");
    assert_eq!(message.len(), 64 + 8 + 48);
    assert_eq!(message, verify_message_for_hash(digest.as_ref(), b"context\x00"));
    let short = verify_message_for_hash(&[1, 2], &[]);
    assert_eq!(short.len(), 66);
    assert_eq!(&short[64..], &[1, 2]);
}

#[test]
fn subjects_are_wrapped_in_a_sequence() {
    let name = |length: usize| {
        OwnedTrustAnchor::from_subject_spki_name_constraints(vec![5; length], vec![], None)
            .subject()
            .0
            .clone()
    };
    assert_eq!(name(0), vec![0x30, 0]);
    assert_eq!(name(1), vec![0x30, 1, 5]);
    assert_eq!(&name(0x7f)[..3], &[0x30, 0x7f, 5]);
    assert_eq!(&name(0x80)[..4], &[0x30, 0x81, 0x80, 5]);
    assert_eq!(&name(0xff)[..4], &[0x30, 0x81, 0xff, 5]);
    assert_eq!(&name(0x100)[..5], &[0x30, 0x82, 1, 0, 5]);
    assert_eq!(&name(0x1_0000)[..6], &[0x30, 0x83, 1, 0, 0, 5]);
    assert_eq!(name(0x1_0000).len(), 5 + 0x1_0000);
}

#[test]
fn anchors_come_apart_as_they_were_put_together() {
    let anchor = OwnedTrustAnchor::from_subject_spki_name_constraints(
        vec![5; 200],
        vec![1, 2],
        Some(vec![3]),
    );
    let outside = anchor.to_trust_anchor();
    assert_eq!(outside.subject, &[5; 200][..]);
    assert_eq!(outside.spki, &[1, 2]);
    assert_eq!(outside.name_constraints, Some(&[3][..]));
}
