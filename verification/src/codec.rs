//! Byte-exact codec for the persisted record layout.
//!
//! A committed record is stored as, in order and without padding: an 8-byte
//! record-kind discriminator, the 32-byte author identity, the 8-byte signed
//! timestamp, and each text field as a 4-byte little-endian byte-length
//! prefix followed by the field's UTF-8 bytes.

use vstd::prelude::*;
use vstd::bytes::lemma_auto_spec_u32_to_from_le_bytes;
use vstd::bytes::lemma_auto_spec_u64_to_from_le_bytes;
use vstd::bytes::spec_u32_from_le_bytes;
use vstd::bytes::spec_u32_to_le_bytes;
use vstd::bytes::spec_u64_from_le_bytes;
use vstd::bytes::spec_u64_to_le_bytes;
use vstd::bytes::u32_from_le_bytes;
use vstd::bytes::u32_to_le_bytes;
use vstd::bytes::u64_from_le_bytes;
use vstd::bytes::u64_to_le_bytes;
use vstd::slice::slice_subrange;
use vstd::slice::slice_to_vec;
use vstd::string::StrSliceExecFns;
use vstd::string::StringExecFns;
use vstd::utf8::decode_utf8;
use vstd::utf8::encode_scalar;
use vstd::utf8::encode_utf8;
use vstd::utf8::valid_utf8;

use crate::tweet::MAX_CONTENT_CHARS;
use crate::tweet::MAX_CONTENT_LENGTH;
use crate::tweet::MAX_TOPIC_CHARS;
use crate::tweet::MAX_TOPIC_LENGTH;
use crate::tweet::Tweet;

verus! {

broadcast use vstd::utf8::encode_utf8_valid_utf8, vstd::utf8::encode_utf8_decode_utf8, vstd::utf8::char_is_scalar;

/// Value of the record-kind discriminator: this store persists a single
/// record kind, tagged 1.
pub const RECORD_KIND: u64 = 1;

/// Byte offset where the author identity starts.
pub const AUTHOR_OFFSET: usize = 8;

/// Byte offset where the timestamp starts.
pub const TIMESTAMP_OFFSET: usize = 40;

/// Byte offset of the topic's byte-length prefix.
pub const TOPIC_PREFIX_OFFSET: usize = 48;

/// Byte offset where the topic's UTF-8 bytes start.
pub const TOPIC_OFFSET: usize = 52;

/// Length of the shortest possible record: both text fields empty.
pub const MIN_RECORD_LEN: usize = 56;

/// The exact bytes that persist the given record.
pub open spec fn spec_encode(t: Tweet) -> Seq<u8> {
    spec_u64_to_le_bytes(RECORD_KIND) + t.author@ + spec_u64_to_le_bytes(t.timestamp as u64)
        + spec_u32_to_le_bytes(encode_utf8(t.topic@).len() as u32) + encode_utf8(t.topic@)
        + spec_u32_to_le_bytes(encode_utf8(t.content@).len() as u32) + encode_utf8(t.content@)
}

/// True when the bytes are exactly the persisted form of one well-formed
/// record: right discriminator, in-bounds length prefixes, valid UTF-8 text
/// within the character caps, and nothing after the content.
pub open spec fn parses(b: Seq<u8>) -> bool {
    &&& b.len() >= MIN_RECORD_LEN
    &&& b.subrange(0, AUTHOR_OFFSET as int) == spec_u64_to_le_bytes(RECORD_KIND)
    &&& {
        let tlen = spec_u32_from_le_bytes(
            b.subrange(TOPIC_PREFIX_OFFSET as int, TOPIC_OFFSET as int),
        ) as int;
        &&& tlen <= MAX_TOPIC_LENGTH
        &&& b.len() >= MIN_RECORD_LEN + tlen
        &&& valid_utf8(b.subrange(TOPIC_OFFSET as int, TOPIC_OFFSET + tlen))
        &&& decode_utf8(b.subrange(TOPIC_OFFSET as int, TOPIC_OFFSET + tlen)).len()
            <= MAX_TOPIC_CHARS
        &&& {
            let clen = spec_u32_from_le_bytes(
                b.subrange(TOPIC_OFFSET + tlen, MIN_RECORD_LEN + tlen),
            ) as int;
            &&& clen <= MAX_CONTENT_LENGTH
            &&& b.len() == MIN_RECORD_LEN + tlen + clen
            &&& valid_utf8(b.subrange(MIN_RECORD_LEN + tlen, MIN_RECORD_LEN + tlen + clen))
            &&& decode_utf8(
                b.subrange(MIN_RECORD_LEN + tlen, MIN_RECORD_LEN + tlen + clen),
            ).len() <= MAX_CONTENT_CHARS
        }
    }
}

/// UTF-8 spends at most four bytes on each character.
proof fn lemma_encode_utf8_len(chars: Seq<char>)
    ensures
        encode_utf8(chars).len() <= 4 * chars.len(),
    decreases chars.len(),
{
    if chars.len() == 0 {
    } else {
        assert(encode_scalar(chars[0] as u32).len() <= 4);
        lemma_encode_utf8_len(chars.drop_first());
    }
}

/// Where each piece of a well-formed record's encoding sits in the whole.
proof fn lemma_encode_pieces(t: Tweet)
    requires
        t.well_formed(),
    ensures
        ({
            let b = spec_encode(t);
            let tlen = encode_utf8(t.topic@).len() as int;
            let clen = encode_utf8(t.content@).len() as int;
            &&& b.len() == MIN_RECORD_LEN + tlen + clen
            &&& b.subrange(0, AUTHOR_OFFSET as int) == spec_u64_to_le_bytes(RECORD_KIND)
            &&& b.subrange(AUTHOR_OFFSET as int, TIMESTAMP_OFFSET as int) == t.author@
            &&& b.subrange(TIMESTAMP_OFFSET as int, TOPIC_PREFIX_OFFSET as int)
                == spec_u64_to_le_bytes(t.timestamp as u64)
            &&& b.subrange(TOPIC_PREFIX_OFFSET as int, TOPIC_OFFSET as int)
                == spec_u32_to_le_bytes(tlen as u32)
            &&& b.subrange(TOPIC_OFFSET as int, TOPIC_OFFSET + tlen) == encode_utf8(t.topic@)
            &&& b.subrange(TOPIC_OFFSET + tlen, MIN_RECORD_LEN + tlen) == spec_u32_to_le_bytes(
                clen as u32,
            )
            &&& b.subrange(MIN_RECORD_LEN + tlen, MIN_RECORD_LEN + tlen + clen) == encode_utf8(
                t.content@,
            )
        }),
{
    lemma_auto_spec_u64_to_from_le_bytes();
    lemma_auto_spec_u32_to_from_le_bytes();
    let b = spec_encode(t);
    let tlen = encode_utf8(t.topic@).len() as int;
    let clen = encode_utf8(t.content@).len() as int;
    assert(b.subrange(0, AUTHOR_OFFSET as int) =~= spec_u64_to_le_bytes(RECORD_KIND));
    assert(b.subrange(AUTHOR_OFFSET as int, TIMESTAMP_OFFSET as int) =~= t.author@);
    assert(b.subrange(TIMESTAMP_OFFSET as int, TOPIC_PREFIX_OFFSET as int)
        =~= spec_u64_to_le_bytes(t.timestamp as u64));
    assert(b.subrange(TOPIC_PREFIX_OFFSET as int, TOPIC_OFFSET as int) =~= spec_u32_to_le_bytes(
        tlen as u32,
    ));
    assert(b.subrange(TOPIC_OFFSET as int, TOPIC_OFFSET + tlen) =~= encode_utf8(t.topic@));
    assert(b.subrange(TOPIC_OFFSET + tlen, MIN_RECORD_LEN + tlen) =~= spec_u32_to_le_bytes(
        clen as u32,
    ));
    assert(b.subrange(MIN_RECORD_LEN + tlen, MIN_RECORD_LEN + tlen + clen) =~= encode_utf8(
        t.content@,
    ));
}

/// Every well-formed record's encoding parses back: the codec never writes
/// bytes its own reader would reject.
pub proof fn lemma_encode_parses(t: Tweet)
    requires
        t.well_formed(),
    ensures
        parses(spec_encode(t)),
{
    lemma_auto_spec_u64_to_from_le_bytes();
    lemma_auto_spec_u32_to_from_le_bytes();
    lemma_encode_pieces(t);
    lemma_encode_utf8_len(t.topic@);
    lemma_encode_utf8_len(t.content@);
    let b = spec_encode(t);
    let tlen = encode_utf8(t.topic@).len() as int;
    let clen = encode_utf8(t.content@).len() as int;
    assert(spec_u32_from_le_bytes(b.subrange(TOPIC_PREFIX_OFFSET as int, TOPIC_OFFSET as int))
        == tlen as u32);
    assert(spec_u32_from_le_bytes(b.subrange(TOPIC_OFFSET + tlen, MIN_RECORD_LEN + tlen))
        == clen as u32);
}

/// Two well-formed records with the same encoding hold the same data: the
/// persisted form determines the record.
pub proof fn lemma_encode_injective(t1: Tweet, t2: Tweet)
    requires
        t1.well_formed(),
        t2.well_formed(),
        spec_encode(t1) == spec_encode(t2),
    ensures
        t1.author@ == t2.author@,
        t1.timestamp == t2.timestamp,
        t1.topic@ == t2.topic@,
        t1.content@ == t2.content@,
{
    lemma_auto_spec_u64_to_from_le_bytes();
    lemma_auto_spec_u32_to_from_le_bytes();
    lemma_encode_pieces(t1);
    lemma_encode_pieces(t2);
    lemma_encode_utf8_len(t1.topic@);
    lemma_encode_utf8_len(t2.topic@);
    let b = spec_encode(t1);
    let ts1 = t1.timestamp;
    let ts2 = t2.timestamp;
    assert(spec_u64_from_le_bytes(spec_u64_to_le_bytes(ts1 as u64)) == ts1 as u64);
    assert(ts1 as u64 == ts2 as u64);
    assert(ts1 == ts2) by (bit_vector)
        requires
            ts1 as u64 == ts2 as u64,
    ;
    let tlen1 = encode_utf8(t1.topic@).len() as int;
    let tlen2 = encode_utf8(t2.topic@).len() as int;
    assert(spec_u32_from_le_bytes(spec_u32_to_le_bytes(tlen1 as u32)) == tlen1 as u32);
    assert(tlen1 == tlen2);
    assert(encode_utf8(t1.topic@) == encode_utf8(t2.topic@));
    assert(decode_utf8(encode_utf8(t1.topic@)) == t1.topic@);
    assert(t1.topic@ == t2.topic@);
    let clen1 = encode_utf8(t1.content@).len() as int;
    let clen2 = encode_utf8(t2.content@).len() as int;
    assert(clen1 == clen2);
    assert(encode_utf8(t1.content@) == encode_utf8(t2.content@));
    assert(decode_utf8(encode_utf8(t1.content@)) == t1.content@);
    assert(decode_utf8(encode_utf8(t2.content@)) == t2.content@);
    assert(t1.content@ == t2.content@);
}

/// Writes one record in its persisted form. The output never exceeds the
/// slot size [`Tweet::LEN`].
pub fn encode_tweet(t: &Tweet) -> (r: Vec<u8>)
    requires
        t.well_formed(),
    ensures
        r@ == spec_encode(*t),
        r@.len() <= Tweet::LEN,
{
    proof {
        lemma_auto_spec_u64_to_from_le_bytes();
        lemma_auto_spec_u32_to_from_le_bytes();
        lemma_encode_utf8_len(t.topic@);
        lemma_encode_utf8_len(t.content@);
    }
    let mut out: Vec<u8> = u64_to_le_bytes(RECORD_KIND);
    let mut author = slice_to_vec(t.author.as_slice());
    out.append(&mut author);
    let mut ts = u64_to_le_bytes(t.timestamp as u64);
    out.append(&mut ts);
    let mut topic_bytes = t.topic.as_str().as_bytes_vec();
    let mut topic_prefix = u32_to_le_bytes(topic_bytes.len() as u32);
    out.append(&mut topic_prefix);
    out.append(&mut topic_bytes);
    let mut content_bytes = t.content.as_str().as_bytes_vec();
    let mut content_prefix = u32_to_le_bytes(content_bytes.len() as u32);
    out.append(&mut content_prefix);
    out.append(&mut content_bytes);
    proof {
        assert(out@ =~= spec_encode(*t));
    }
    out
}

/// Relies on `core::str::from_utf8`: it returns `Ok` exactly when the bytes
/// are valid UTF-8, and the returned string slice is those very bytes.
#[verifier::external_body]
fn bytes_to_str(v: &[u8]) -> (r: Option<&str>)
    ensures
        r is Some <==> valid_utf8(v@),
        r matches Some(s) ==> encode_utf8(s@) == v@,
{
    core::str::from_utf8(v).ok()
}

/// Reads one record back from its persisted form, accepting exactly the
/// byte strings that [`parses`] describes and rejecting everything else.
pub fn decode_tweet(bytes: &[u8]) -> (r: Option<Tweet>)
    ensures
        r is Some <==> parses(bytes@),
        r matches Some(t) ==> t.well_formed() && spec_encode(t) == bytes@,
{
    proof {
        lemma_auto_spec_u64_to_from_le_bytes();
        lemma_auto_spec_u32_to_from_le_bytes();
    }
    if bytes.len() < MIN_RECORD_LEN {
        return None;
    }
    let tag = u64_from_le_bytes(slice_subrange(bytes, 0, AUTHOR_OFFSET));
    if tag != RECORD_KIND {
        return None;
    }
    let author = slice_to_vec(slice_subrange(bytes, AUTHOR_OFFSET, TIMESTAMP_OFFSET));
    let ts_bits = u64_from_le_bytes(slice_subrange(bytes, TIMESTAMP_OFFSET, TOPIC_PREFIX_OFFSET));
    let timestamp = ts_bits as i64;
    proof {
        assert(timestamp as u64 == ts_bits) by (bit_vector)
            requires
                timestamp == ts_bits as i64,
        ;
    }
    let topic_len = u32_from_le_bytes(slice_subrange(bytes, TOPIC_PREFIX_OFFSET, TOPIC_OFFSET))
        as usize;
    if topic_len > MAX_TOPIC_LENGTH {
        return None;
    }
    if bytes.len() < MIN_RECORD_LEN + topic_len {
        return None;
    }
    let topic_str = match bytes_to_str(
        slice_subrange(bytes, TOPIC_OFFSET, TOPIC_OFFSET + topic_len),
    ) {
        Some(s) => s,
        None => {
            return None;
        },
    };
    if topic_str.unicode_len() > MAX_TOPIC_CHARS {
        return None;
    }
    let content_len = u32_from_le_bytes(
        slice_subrange(bytes, TOPIC_OFFSET + topic_len, MIN_RECORD_LEN + topic_len),
    ) as usize;
    if content_len > MAX_CONTENT_LENGTH {
        return None;
    }
    if bytes.len() != MIN_RECORD_LEN + topic_len + content_len {
        return None;
    }
    let content_str = match bytes_to_str(
        slice_subrange(
            bytes,
            MIN_RECORD_LEN + topic_len,
            MIN_RECORD_LEN + topic_len + content_len,
        ),
    ) {
        Some(s) => s,
        None => {
            return None;
        },
    };
    if content_str.unicode_len() > MAX_CONTENT_CHARS {
        return None;
    }
    let t = Tweet {
        author,
        timestamp,
        topic: String::from_str(topic_str),
        content: String::from_str(content_str),
    };
    proof {
        assert(spec_encode(t) =~= bytes@);
    }
    Some(t)
}

} // verus!
