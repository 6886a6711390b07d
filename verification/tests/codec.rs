use rustconnect::behaviour::{own_protocol_version, protocol_version, PROTOCOL_VERSION};
use rustconnect::client::listen_address;
use rustconnect::decimal::to_decimal;
use rustconnect::dedup::{
    frame, hash_payload, identity_of_hash, message_identity, unframe, DecodeFault, DedupPolicy,
    STAMP_WIDTH,
};
use rustconnect::gate::{PeerTrustGate, Verdict};
use std::collections::hash_map::DefaultHasher;
use std::hash::Hasher;

#[test]
fn decimal_of_zero_is_one_digit() {
    assert_eq!(to_decimal(0), "0");
}

#[test]
fn decimal_of_single_digits() {
    assert_eq!(to_decimal(7), "7");
    assert_eq!(to_decimal(9), "9");
}

#[test]
fn decimal_has_no_leading_zero() {
    assert_eq!(to_decimal(10), "10");
    assert_eq!(to_decimal(1002003), "1002003");
}

#[test]
fn decimal_of_the_largest_number() {
    assert_eq!(to_decimal(u64::MAX), "18446744073709551615");
}

#[test]
fn decimal_agrees_with_the_standard_library() {
    let samples: Vec<u64> = vec![0, 1, 9, 10, 11, 99, 100, 101, 4096, 65535, 1 << 40];
    for n in samples {
        assert_eq!(to_decimal(n), n.to_string());
    }
}

#[test]
fn protocol_version_has_name_major_and_minor() {
    assert_eq!(protocol_version("chat", 0, 1), "chat/0.1");
    assert_eq!(protocol_version("chat", 12, 345), "chat/12.345");
    assert_eq!(protocol_version("", 0, 0), "/0.0");
}

#[test]
fn own_protocol_version_is_chat_0_1() {
    assert_eq!(own_protocol_version(), "chat/0.1");
    assert_eq!(own_protocol_version(), PROTOCOL_VERSION);
}

#[test]
fn listen_address_binds_every_interface() {
    assert_eq!(listen_address(0), "/ip4/0.0.0.0/tcp/0");
    assert_eq!(listen_address(4001), "/ip4/0.0.0.0/tcp/4001");
    assert_eq!(listen_address(u16::MAX), "/ip4/0.0.0.0/tcp/65535");
}

#[test]
fn gate_admits_the_own_version() {
    let gate = PeerTrustGate::new(String::from("chat/0.1"));
    assert_eq!(gate.version(), "chat/0.1");
    assert_eq!(gate.decide(&String::from("chat/0.1")), Verdict::Admit);
}

#[test]
fn gate_rejects_every_other_version() {
    let gate = PeerTrustGate::new(String::from("chat/0.1"));
    assert_eq!(gate.decide(&String::from("chat/0.2")), Verdict::Reject);
    assert_eq!(gate.decide(&String::from("chat/1.1")), Verdict::Reject);
    assert_eq!(gate.decide(&String::from("chat/0.10")), Verdict::Reject);
    assert_eq!(gate.decide(&String::from("chat/0.1 ")), Verdict::Reject);
    assert_eq!(gate.decide(&String::from("Chat/0.1")), Verdict::Reject);
    assert_eq!(gate.decide(&String::from("chat/0")), Verdict::Reject);
    assert_eq!(gate.decide(&String::new()), Verdict::Reject);
}

#[test]
fn content_hash_frame_is_the_payload() {
    assert_eq!(frame(DedupPolicy::ContentHash, 77, b"hello"), b"hello".to_vec());
    assert_eq!(frame(DedupPolicy::ContentHash, 0, b""), Vec::<u8>::new());
}

#[test]
fn timestamp_frame_puts_the_stamp_in_front() {
    let data = frame(DedupPolicy::Timestamp, 1, b"hi");
    let mut expected: Vec<u8> = vec![1];
    expected.extend_from_slice(&[0u8; 15]);
    expected.extend_from_slice(b"hi");
    assert_eq!(data, expected);
    assert_eq!(data.len(), STAMP_WIDTH + 2);
}

#[test]
fn timestamp_frame_is_little_endian() {
    let stamp: u128 = 0x0102_0304_0506_0708_090a_0b0c_0d0e_0f10;
    let data = frame(DedupPolicy::Timestamp, stamp, b"");
    assert_eq!(data, stamp.to_le_bytes().to_vec());
    assert_eq!(data[0], 0x10);
    assert_eq!(data[15], 0x01);
}

#[test]
fn unframe_gives_the_payload_back() {
    for policy in [DedupPolicy::ContentHash, DedupPolicy::Timestamp] {
        for stamp in [0u128, 1, 1 << 64, u128::MAX] {
            for payload in [&b""[..], &b"h"[..], &b"hello world"[..], &[0u8, 255, 0, 255][..]] {
                let data = frame(policy, stamp, payload);
                assert_eq!(unframe(policy, &data), Ok(payload.to_vec()));
            }
        }
    }
}

#[test]
fn unframe_of_short_data_is_a_decode_fault() {
    assert_eq!(unframe(DedupPolicy::Timestamp, b""), Err(DecodeFault { length: 0 }));
    assert_eq!(unframe(DedupPolicy::Timestamp, &[7u8; 15]), Err(DecodeFault { length: 15 }));
}

#[test]
fn unframe_of_a_bare_stamp_is_the_empty_payload() {
    assert_eq!(unframe(DedupPolicy::Timestamp, &[7u8; 16]), Ok(Vec::new()));
    assert_eq!(unframe(DedupPolicy::Timestamp, &[7u8; 17]), Ok(vec![7u8]));
}

#[test]
fn unframe_under_content_hash_never_fails() {
    assert_eq!(unframe(DedupPolicy::ContentHash, b""), Ok(Vec::new()));
    assert_eq!(unframe(DedupPolicy::ContentHash, b"abc"), Ok(b"abc".to_vec()));
}

#[test]
fn hash_is_the_default_hashers() {
    let mut hasher = DefaultHasher::new();
    hasher.write(b"hello");
    assert_eq!(hash_payload(b"hello"), hasher.finish());
}

#[test]
fn identity_of_a_hash_is_its_numeral() {
    assert_eq!(identity_of_hash(0), b"0".to_vec());
    assert_eq!(identity_of_hash(1234567890), b"1234567890".to_vec());
    assert_eq!(identity_of_hash(u64::MAX), b"18446744073709551615".to_vec());
}

#[test]
fn content_hash_identity_is_the_numeral_of_the_hash() {
    let mut hasher = DefaultHasher::new();
    hasher.write(b"hello");
    let expected = hasher.finish().to_string().into_bytes();
    assert_eq!(message_identity(DedupPolicy::ContentHash, b"hello"), expected);
}

#[test]
fn content_hash_identity_is_the_same_for_the_same_bytes() {
    let first = message_identity(DedupPolicy::ContentHash, &frame(DedupPolicy::ContentHash, 1, b"hello"));
    let second = message_identity(DedupPolicy::ContentHash, &frame(DedupPolicy::ContentHash, 2, b"hello"));
    assert_eq!(first, second);
    let other = message_identity(DedupPolicy::ContentHash, b"hellp");
    assert_ne!(first, other);
}

#[test]
fn timestamp_identity_is_the_prefix() {
    let data = frame(DedupPolicy::Timestamp, 42, b"hello");
    assert_eq!(message_identity(DedupPolicy::Timestamp, &data), 42u128.to_le_bytes().to_vec());
}

#[test]
fn timestamp_identity_tells_stamps_apart() {
    let first = message_identity(DedupPolicy::Timestamp, &frame(DedupPolicy::Timestamp, 1, b"hello"));
    let second = message_identity(DedupPolicy::Timestamp, &frame(DedupPolicy::Timestamp, 2, b"hello"));
    assert_ne!(first, second);
}

#[test]
fn timestamp_identity_of_short_data_is_the_data() {
    assert_eq!(message_identity(DedupPolicy::Timestamp, b"abc"), b"abc".to_vec());
    assert_eq!(message_identity(DedupPolicy::Timestamp, b""), Vec::<u8>::new());
}
