//! Message identity and the framing that goes with it.
//!
//! The broadcast mesh delivers a message at most once per identifier, so the
//! way an identifier is derived from what travels on the wire decides which
//! publications a receiver tells apart. Two policies exist, and a deployment
//! uses one of them on all its nodes:
//!
//! * [`DedupPolicy::ContentHash`]: the payload travels unframed and its
//!   identifier is a hash of its bytes. Byte-identical payloads share one
//!   identifier.
//! * [`DedupPolicy::Timestamp`]: the sender puts a clock value in front of the
//!   payload, as a prefix of [`STAMP_WIDTH`] bytes, and that prefix is the
//!   identifier. The receiver strips it.

use crate::decimal::{decimal_text, lemma_decimal_text_is_ascii, to_decimal};
use std::collections::hash_map::DefaultHasher;
use std::hash::Hasher;
use vstd::bytes::{
    lemma_auto_spec_u128_to_from_le_bytes, spec_u128_from_le_bytes, spec_u128_to_le_bytes,
    u128_to_le_bytes,
};
use vstd::prelude::*;
use vstd::slice::{slice_subrange, slice_to_vec};
use vstd::std_specs::hash::DefaultHasherAdditionalSpecFns;
use vstd::string::{StrSliceExecFns, StringSliceAdditionalSpecFns};
use vstd::utf8::is_ascii_chars_encode_utf8;

verus! {

/// How a deployment tells one publication from another.
#[derive(Clone, Copy, Debug, PartialEq, Eq, Structural)]
pub enum DedupPolicy {
    /// The identifier is a hash of the payload's bytes.
    ContentHash,
    /// The identifier is a clock value that the sender puts in front of the payload.
    Timestamp,
}

/// The number of bytes that a clock value takes in front of a payload.
pub const STAMP_WIDTH: usize = 16;

/// Wire data that is too short to hold the prefix its policy prescribes.
#[derive(Clone, Copy, Debug, PartialEq, Eq, Structural)]
pub struct DecodeFault {
    /// The number of bytes that arrived.
    pub length: usize,
}

/// The prefix that carries a clock value: its sixteen bytes, least significant first.
pub open spec fn stamp_bytes(stamp: u128) -> Seq<u8> {
    spec_u128_to_le_bytes(stamp)
}

/// What travels on the wire for a payload.
pub open spec fn framed(policy: DedupPolicy, stamp: u128, payload: Seq<u8>) -> Seq<u8> {
    match policy {
        DedupPolicy::ContentHash => payload,
        DedupPolicy::Timestamp => stamp_bytes(stamp) + payload,
    }
}

/// The payload that wire data carries, if the data is long enough to carry one.
pub open spec fn unframed(policy: DedupPolicy, data: Seq<u8>) -> Option<Seq<u8>> {
    match policy {
        DedupPolicy::ContentHash => Some(data),
        DedupPolicy::Timestamp => if data.len() < STAMP_WIDTH {
            None
        } else {
            Some(data.skip(STAMP_WIDTH as int))
        },
    }
}

/// The bytes of a text that holds ASCII characters only.
pub open spec fn ascii_bytes(text: Seq<char>) -> Seq<u8> {
    Seq::new(text.len(), |i: int| text[i] as u8)
}

/// The hash of a payload: what the standard library's default hasher returns
/// after the payload was written to it in one piece.
pub open spec fn content_hash(data: Seq<u8>) -> u64 {
    DefaultHasher::spec_finish(seq![data])
}

/// The identifier that stands for a hash value: its decimal numeral.
pub open spec fn hash_identity(hash: u64) -> Seq<u8> {
    ascii_bytes(decimal_text(hash as nat))
}

/// The identifier of wire data.
///
/// Under the timestamp policy it is the prefix; data too short to hold one
/// is its own identifier.
pub open spec fn identity(policy: DedupPolicy, data: Seq<u8>) -> Seq<u8> {
    match policy {
        DedupPolicy::ContentHash => hash_identity(content_hash(data)),
        DedupPolicy::Timestamp => if data.len() < STAMP_WIDTH {
            data
        } else {
            data.take(STAMP_WIDTH as int)
        },
    }
}

/// Frames a payload for the wire.
pub fn frame(policy: DedupPolicy, stamp: u128, payload: &[u8]) -> (data: Vec<u8>)
    ensures
        data@ == framed(policy, stamp, payload@),
{
    match policy {
        DedupPolicy::ContentHash => slice_to_vec(payload),
        DedupPolicy::Timestamp => {
            let mut data = u128_to_le_bytes(stamp);
            let mut rest = slice_to_vec(payload);
            data.append(&mut rest);
            data
        },
    }
}

/// Takes the payload out of wire data.
///
/// Fails exactly when the data is shorter than the prefix that the policy prescribes.
pub fn unframe(policy: DedupPolicy, data: &[u8]) -> (payload: Result<Vec<u8>, DecodeFault>)
    ensures
        match payload {
            Ok(bytes) => unframed(policy, data@) == Some(bytes@),
            Err(fault) => unframed(policy, data@) is None && fault.length == data@.len(),
        },
{
    match policy {
        DedupPolicy::ContentHash => Ok(slice_to_vec(data)),
        DedupPolicy::Timestamp => {
            let length: usize = data.len();
            if length < STAMP_WIDTH {
                Err(DecodeFault { length })
            } else {
                let bytes = slice_to_vec(slice_subrange(data, STAMP_WIDTH, length));
                assert(bytes@ =~= data@.skip(STAMP_WIDTH as int));
                Ok(bytes)
            }
        },
    }
}

/// Hashes a payload with the standard library's default hasher.
pub fn hash_payload(data: &[u8]) -> (hash: u64)
    ensures
        hash == content_hash(data@),
{
    let mut hasher = DefaultHasher::new();
    hasher.write(data);
    hasher.finish()
}

/// Writes a hash value as an identifier.
pub fn identity_of_hash(hash: u64) -> (id: Vec<u8>)
    ensures
        id@ == hash_identity(hash),
{
    let text = to_decimal(hash);
    let id = text.as_str().as_bytes_vec();
    proof {
        lemma_decimal_text_is_ascii(hash as nat);
        is_ascii_chars_encode_utf8(text@);
        assert(id@ =~= hash_identity(hash));
    }
    id
}

/// Computes the identifier of wire data.
pub fn message_identity(policy: DedupPolicy, data: &[u8]) -> (id: Vec<u8>)
    ensures
        id@ == identity(policy, data@),
{
    match policy {
        DedupPolicy::ContentHash => identity_of_hash(hash_payload(data)),
        DedupPolicy::Timestamp => {
            let length: usize = data.len();
            if length < STAMP_WIDTH {
                slice_to_vec(data)
            } else {
                let id = slice_to_vec(slice_subrange(data, 0, STAMP_WIDTH));
                assert(id@ =~= data@.take(STAMP_WIDTH as int));
                id
            }
        },
    }
}

/// A prefix has the prescribed width, and the clock value can be read back from it.
pub proof fn lemma_stamp_bytes(stamp: u128)
    ensures
        stamp_bytes(stamp).len() == STAMP_WIDTH,
        spec_u128_from_le_bytes(stamp_bytes(stamp)) == stamp,
{
    lemma_auto_spec_u128_to_from_le_bytes();
    assert(spec_u128_to_le_bytes(stamp).len() == 16);
}

/// Framing loses nothing: the receiver gets the payload back byte for byte,
/// whatever the policy and the clock value.
pub proof fn lemma_unframe_inverts_frame(policy: DedupPolicy, stamp: u128, payload: Seq<u8>)
    ensures
        unframed(policy, framed(policy, stamp, payload)) == Some(payload),
{
    lemma_stamp_bytes(stamp);
    if policy == DedupPolicy::Timestamp {
        assert((stamp_bytes(stamp) + payload).skip(STAMP_WIDTH as int) =~= payload);
    }
}

/// Under the content-hash policy two publications of the same bytes are one and
/// the same on the wire and have one identifier, whenever they were sent: the
/// mesh takes the second for a retransmission of the first.
pub proof fn lemma_content_hash_collapses_identical_payloads(
    payload: Seq<u8>,
    first_stamp: u128,
    second_stamp: u128,
)
    ensures
        framed(DedupPolicy::ContentHash, first_stamp, payload) == framed(
            DedupPolicy::ContentHash,
            second_stamp,
            payload,
        ),
        identity(DedupPolicy::ContentHash, framed(DedupPolicy::ContentHash, first_stamp, payload))
            == identity(
            DedupPolicy::ContentHash,
            framed(DedupPolicy::ContentHash, second_stamp, payload),
        ),
{
}

/// Under the timestamp policy the identifier of a framed payload is its prefix.
pub proof fn lemma_timestamp_identity_is_the_prefix(stamp: u128, payload: Seq<u8>)
    ensures
        identity(DedupPolicy::Timestamp, framed(DedupPolicy::Timestamp, stamp, payload))
            == stamp_bytes(stamp),
{
    lemma_stamp_bytes(stamp);
    assert((stamp_bytes(stamp) + payload).take(STAMP_WIDTH as int) =~= stamp_bytes(stamp));
}

/// Under the timestamp policy publications with different clock values have
/// different identifiers, whatever their payloads: the mesh delivers both.
pub proof fn lemma_timestamp_keeps_publications_apart(
    first_stamp: u128,
    first_payload: Seq<u8>,
    second_stamp: u128,
    second_payload: Seq<u8>,
)
    requires
        first_stamp != second_stamp,
    ensures
        identity(
            DedupPolicy::Timestamp,
            framed(DedupPolicy::Timestamp, first_stamp, first_payload),
        ) != identity(
            DedupPolicy::Timestamp,
            framed(DedupPolicy::Timestamp, second_stamp, second_payload),
        ),
{
    lemma_timestamp_identity_is_the_prefix(first_stamp, first_payload);
    lemma_timestamp_identity_is_the_prefix(second_stamp, second_payload);
    lemma_stamp_bytes(first_stamp);
    lemma_stamp_bytes(second_stamp);
}

} // verus!
