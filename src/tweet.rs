use anchor_lang::prelude::Pubkey;
use vstd::prelude::*;
use vstd::utf8::encode_utf8;

verus! {

/// Relies on anchor_lang's `Pubkey` (the host chain's 32-byte address type,
/// which is `Copy`) only as an opaque value: the library moves a signer's key
/// into a record and compares keys for equality, nothing more.
#[verifier::external_type_specification]
#[verifier::external_body]
pub struct ExPubkey(Pubkey);

/// Bytes of the account-kind tag that the host writes in front of each record.
pub const DISCRIMINATOR_LENGTH: usize = 8;

/// Bytes of the author's public key.
pub const PUBLIC_KEY_LENGTH: usize = 32;

/// Bytes of the creation time, a signed 64-bit count of seconds.
pub const TIMESTAMP_LENGTH: usize = 8;

/// Bytes of the length prefix that stands before each string.
pub const STRING_LENGTH_PREFIX: usize = 4;

/// Most characters a topic may hold.
pub const MAX_TOPIC_CHARS: usize = 50;

/// Most characters a content may hold.
pub const MAX_CONTENT_CHARS: usize = 280;

/// Bytes kept for a topic: a UTF-8 character takes at most four bytes.
/// Changing `MAX_TOPIC_CHARS` changes this value and with it the slot size.
pub const MAX_TOPIC_LENGTH: usize = MAX_TOPIC_CHARS * 4;

/// Bytes kept for a content, on the same four-bytes-per-character bound.
pub const MAX_CONTENT_LENGTH: usize = MAX_CONTENT_CHARS * 4;

/// A created tweet: who wrote it, when, and its two text fields.
#[derive(Debug, PartialEq, Eq)]
pub struct Tweet {
    /// The signer of the request that created the tweet.
    pub author: Pubkey,
    /// The host clock's time at creation, in seconds since the epoch.
    pub timestamp: i64,
    /// At most `MAX_TOPIC_CHARS` characters, stored as given.
    pub topic: String,
    /// At most `MAX_CONTENT_CHARS` characters, stored as given.
    pub content: String,
}

impl Tweet {
    /// The tweet holds exactly these author, time and text fields.
    pub open spec fn holds(
        self,
        author: Pubkey,
        timestamp: i64,
        topic: Seq<char>,
        content: Seq<char>,
    ) -> bool {
        &&& self.author == author
        &&& self.timestamp == timestamp
        &&& self.topic@ == topic
        &&& self.content@ == content
    }

    /// How many bytes the tweet takes when written to its slot: the tag, the
    /// author, the timestamp, then each string as a length prefix followed by
    /// its UTF-8 bytes.
    pub open spec fn encoded_len(self) -> int {
        DISCRIMINATOR_LENGTH + PUBLIC_KEY_LENGTH + TIMESTAMP_LENGTH + (STRING_LENGTH_PREFIX
            + encode_utf8(self.topic@).len()) + (STRING_LENGTH_PREFIX + encode_utf8(
            self.content@,
        ).len())
    }
}

/// The byte size of the slot that holds one tweet: the tag, the author, the
/// timestamp, and each string's prefix with its worst-case UTF-8 bytes.
pub open spec fn record_size() -> int {
    DISCRIMINATOR_LENGTH + PUBLIC_KEY_LENGTH + TIMESTAMP_LENGTH + (STRING_LENGTH_PREFIX
        + MAX_TOPIC_LENGTH) + (STRING_LENGTH_PREFIX + MAX_CONTENT_LENGTH)
}

/// The fixed byte size of a tweet's storage slot.
pub fn size_of_record() -> (r: usize)
    ensures
        r == record_size(),
        r == 1376,
{
    DISCRIMINATOR_LENGTH + PUBLIC_KEY_LENGTH + TIMESTAMP_LENGTH + (STRING_LENGTH_PREFIX
        + MAX_TOPIC_LENGTH) + (STRING_LENGTH_PREFIX + MAX_CONTENT_LENGTH)
}

/// UTF-8 spends at most four bytes on a character.
pub proof fn lemma_utf8_at_most_four_bytes_per_char(s: Seq<char>)
    ensures
        encode_utf8(s).len() <= 4 * s.len(),
    decreases s.len(),
{
    if s.len() > 0 {
        lemma_utf8_at_most_four_bytes_per_char(s.drop_first());
    }
}

/// A tweet whose topic and content are within their character bounds fits
/// in the fixed-size slot, whatever characters they hold.
pub proof fn lemma_bounded_tweet_fits_slot(t: Tweet)
    requires
        t.topic@.len() <= MAX_TOPIC_CHARS,
        t.content@.len() <= MAX_CONTENT_CHARS,
    ensures
        t.encoded_len() <= record_size(),
{
    lemma_utf8_at_most_four_bytes_per_char(t.topic@);
    lemma_utf8_at_most_four_bytes_per_char(t.content@);
}

} // verus!
