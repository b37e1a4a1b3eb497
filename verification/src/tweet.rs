//! The record type, its sizing, and the single validated store operation.

use vstd::prelude::*;
use vstd::string::StrSliceExecFns;

verus! {

/// Bytes reserved for the record-kind discriminator at the start of a slot.
pub const DISCRIMINATOR_LENGTH: usize = 8;

/// Bytes in an author's public identity.
pub const PUBLIC_KEY_LENGTH: usize = 32;

/// Bytes in the recorded creation timestamp.
pub const TIMESTAMP_LENGTH: usize = 8;

/// Bytes in the length prefix stored before each text field.
pub const STRING_LENGTH_PREFIX: usize = 4;

/// Maximum number of characters a topic may hold.
pub const MAX_TOPIC_CHARS: usize = 50;

/// Maximum number of characters a content field may hold.
pub const MAX_CONTENT_CHARS: usize = 280;

/// Bytes reserved for a topic: worst case of four bytes per character.
pub const MAX_TOPIC_LENGTH: usize = 50 * 4;

/// Bytes reserved for content: worst case of four bytes per character.
pub const MAX_CONTENT_LENGTH: usize = 280 * 4;

/// One persisted post: who wrote it, when, under which topic, and its text.
///
/// A record is created exactly once, by [`send_tweet`], and never mutated
/// afterwards.
pub struct Tweet {
    /// Public identity of the caller who created the record; always
    /// [`PUBLIC_KEY_LENGTH`] bytes.
    pub author: Vec<u8>,
    /// Seconds since the epoch, read from the execution environment's clock
    /// at creation time.
    pub timestamp: i64,
    /// Topic the post files under; at most [`MAX_TOPIC_CHARS`] characters.
    pub topic: String,
    /// Text of the post; at most [`MAX_CONTENT_CHARS`] characters.
    pub content: String,
}

impl Tweet {
    /// Exact number of bytes one record's storage slot occupies:
    /// discriminator, author, timestamp, and a length-prefixed area for each
    /// text field sized for its worst-case encoding.
    pub const LEN: usize = DISCRIMINATOR_LENGTH + PUBLIC_KEY_LENGTH + TIMESTAMP_LENGTH
        + STRING_LENGTH_PREFIX + MAX_TOPIC_LENGTH + STRING_LENGTH_PREFIX + MAX_CONTENT_LENGTH;

    /// A record as [`send_tweet`] commits it: full-size author identity and
    /// both text fields within their character caps.
    pub open spec fn well_formed(self) -> bool {
        &&& self.author@.len() == PUBLIC_KEY_LENGTH
        &&& self.topic@.len() <= MAX_TOPIC_CHARS
        &&& self.content@.len() <= MAX_CONTENT_CHARS
    }
}

/// Every record's slot is allocated with exactly 1376 bytes:
/// 8 + 32 + 8 + (4 + 200) + (4 + 1120).
pub proof fn lemma_record_size()
    ensures
        Tweet::LEN == 1376,
{
}

/// The two ways a store operation can reject its input. Every other failure
/// (funding, signatures, a slot that already exists) is the execution
/// environment's to detect, before this core runs.
#[derive(Clone, Copy, Debug, PartialEq, Eq, Structural)]
pub enum ErrorCode {
    /// The topic exceeds [`MAX_TOPIC_CHARS`] characters.
    TopicTooLong,
    /// The content exceeds [`MAX_CONTENT_CHARS`] characters.
    ContentTooLong,
}

impl ErrorCode {
    /// The description surfaced to a rejected caller.
    pub fn message(&self) -> (m: &'static str)
        ensures
            *self == ErrorCode::TopicTooLong ==> m@ == "The provided topic should be 50 characters long maximum."@,
            *self == ErrorCode::ContentTooLong ==> m@ == "The provided content should be 280 characters long maximum."@,
    {
        match self {
            ErrorCode::TopicTooLong => "The provided topic should be 50 characters long maximum.",
            ErrorCode::ContentTooLong => "The provided content should be 280 characters long maximum.",
        }
    }
}

/// State of one record's storage slot. A slot starts out allocated but
/// unpopulated, and is written at most once; there is no path back.
pub enum Slot {
    /// The slot exists but no record has been committed to it.
    Uninitialized,
    /// A validated record has been committed.
    Committed(Tweet),
}

/// What the execution environment hands to one invocation of [`send_tweet`]:
/// the freshly allocated storage slot and the verified identity of the
/// signing author. The environment has already checked the signature, funded
/// the slot, and confirmed the platform's account-creation authority.
pub struct SendTweet {
    /// The record's storage slot, freshly allocated and still unpopulated.
    pub tweet: Slot,
    /// The caller's verified public identity; always [`PUBLIC_KEY_LENGTH`]
    /// bytes.
    pub author: Vec<u8>,
}

impl SendTweet {
    /// The environment always presents a full-size author identity.
    pub open spec fn well_formed(self) -> bool {
        self.author@.len() == PUBLIC_KEY_LENGTH
    }
}

/// Copies a byte vector. [`send_tweet`] records the caller's identity without
/// consuming the context's copy of it.
fn clone_bytes(v: &Vec<u8>) -> (r: Vec<u8>)
    ensures
        r@ == v@,
{
    let mut r: Vec<u8> = Vec::new();
    let mut i: usize = 0;
    while i < v.len()
        invariant
            i <= v.len(),
            r@ == v@.subrange(0, i as int),
        decreases v.len() - i,
    {
        r.push(v[i]);
        assert(r@ == v@.subrange(0, i + 1 as int));
        i = i + 1;
    }
    assert(v@.subrange(0, v@.len() as int) == v@);
    r
}

/// Validates and commits one new record into the context's storage slot.
///
/// The topic may hold at most [`MAX_TOPIC_CHARS`] characters and the content
/// at most [`MAX_CONTENT_CHARS`]; the first failing check wins. On success
/// the slot is populated, atomically and completely, with the caller's
/// identity, the clock value the environment captured for this invocation,
/// and both strings verbatim. On failure nothing changes.
pub fn send_tweet(ctx: &mut SendTweet, unix_timestamp: i64, topic: String, content: String) -> (r:
    Result<(), ErrorCode>)
    requires
        old(ctx).well_formed(),
        old(ctx).tweet is Uninitialized,
    ensures
        r is Ok <==> topic@.len() <= MAX_TOPIC_CHARS && content@.len() <= MAX_CONTENT_CHARS,
        r is Ok ==> (final(ctx).tweet matches Slot::Committed(t)
            && t.author@ == old(ctx).author@
            && t.timestamp == unix_timestamp
            && t.topic == topic
            && t.content == content
            && t.well_formed()),
        final(ctx).author == old(ctx).author,
        topic@.len() > MAX_TOPIC_CHARS ==> r == Err::<(), ErrorCode>(ErrorCode::TopicTooLong),
        topic@.len() <= MAX_TOPIC_CHARS && content@.len() > MAX_CONTENT_CHARS ==> r == Err::<(),
            ErrorCode,
        >(ErrorCode::ContentTooLong),
        r is Err ==> *final(ctx) == *old(ctx),
{
    if topic.as_str().unicode_len() > MAX_TOPIC_CHARS {
        return Err(ErrorCode::TopicTooLong);
    }
    if content.as_str().unicode_len() > MAX_CONTENT_CHARS {
        return Err(ErrorCode::ContentTooLong);
    }
    let author = clone_bytes(&ctx.author);
    ctx.tweet = Slot::Committed(Tweet { author, timestamp: unix_timestamp, topic, content });
    Ok(())
}

} // verus!
