use crate::error::ErrorCode;
use crate::tweet::{lemma_bounded_tweet_fits_slot, record_size, Tweet, MAX_CONTENT_CHARS, MAX_TOPIC_CHARS};
use anchor_lang::prelude::Pubkey;
use vstd::prelude::*;
use vstd::string::StrSliceExecFns;

verus! {

/// What the checks make of a request, in order, the first failure winning:
/// a topic over its bound, then a content over its bound. Characters are
/// counted, not bytes.
pub open spec fn validation(topic: Seq<char>, content: Seq<char>) -> Result<(), ErrorCode> {
    if topic.len() > MAX_TOPIC_CHARS {
        Err(ErrorCode::TopicTooLong)
    } else if content.len() > MAX_CONTENT_CHARS {
        Err(ErrorCode::ContentTooLong)
    } else {
        Ok(())
    }
}

/// The accounts of a creation request, handed in by the host: the fresh
/// slot the tweet goes into, and the signer who becomes its author.
pub struct SendTweet {
    /// The slot of the new tweet; `None` while nothing has been written.
    pub tweet: Option<Tweet>,
    /// The signer of the request.
    pub author: Pubkey,
}

/// Checks the topic and the content of a request against their bounds.
pub fn validate(topic: &String, content: &String) -> (r: Result<(), ErrorCode>)
    ensures
        r == validation(topic@, content@),
{
    if topic.as_str().unicode_len() > MAX_TOPIC_CHARS {
        return Err(ErrorCode::TopicTooLong);
    }
    if content.as_str().unicode_len() > MAX_CONTENT_CHARS {
        return Err(ErrorCode::ContentTooLong);
    }
    Ok(())
}

/// Creates a tweet in the request's slot, stamped with the signer as author
/// and with `timestamp`, the host clock's time in seconds. On failure the
/// request is left as it was.
pub fn send_tweet(ctx: &mut SendTweet, topic: String, content: String, timestamp: i64) -> (r:
    Result<(), ErrorCode>)
    ensures
        r == validation(topic@, content@),
        final(ctx).author == old(ctx).author,
        r is Ok ==> final(ctx).tweet is Some && final(ctx).tweet->0.holds(
            old(ctx).author,
            timestamp,
            topic@,
            content@,
        ),
        r is Err ==> final(ctx).tweet == old(ctx).tweet,
{
    match validate(&topic, &content) {
        Err(e) => Err(e),
        Ok(()) => {
            let tweet = Tweet { author: ctx.author, timestamp, topic, content };
            ctx.tweet = Some(tweet);
            Ok(())
        },
    }
}

/// A request whose topic and content are within their bounds is accepted,
/// and the tweet it creates holds the topic and content exactly as given.
pub proof fn lemma_bounded_request_round_trips(
    t: Tweet,
    author: Pubkey,
    timestamp: i64,
    topic: Seq<char>,
    content: Seq<char>,
)
    requires
        topic.len() <= MAX_TOPIC_CHARS,
        content.len() <= MAX_CONTENT_CHARS,
        t.holds(author, timestamp, topic, content),
    ensures
        validation(topic, content) == Ok::<(), ErrorCode>(()),
        t.topic@ == topic,
        t.content@ == content,
{
}

/// A topic over its bound is refused as too long, whatever the content.
pub proof fn lemma_long_topic_refused(topic: Seq<char>, content: Seq<char>)
    requires
        topic.len() > MAX_TOPIC_CHARS,
    ensures
        validation(topic, content) == Err::<(), ErrorCode>(ErrorCode::TopicTooLong),
{
}

/// With a topic within its bound, a content over its bound is refused as
/// too long.
pub proof fn lemma_long_content_refused(topic: Seq<char>, content: Seq<char>)
    requires
        topic.len() <= MAX_TOPIC_CHARS,
        content.len() > MAX_CONTENT_CHARS,
    ensures
        validation(topic, content) == Err::<(), ErrorCode>(ErrorCode::ContentTooLong),
{
}

/// Every tweet that an accepted request creates fits in its slot, however
/// many bytes its characters take.
pub proof fn lemma_accepted_tweet_fits_slot(
    t: Tweet,
    author: Pubkey,
    timestamp: i64,
    topic: Seq<char>,
    content: Seq<char>,
)
    requires
        validation(topic, content) is Ok,
        t.holds(author, timestamp, topic, content),
    ensures
        t.encoded_len() <= record_size(),
{
    lemma_bounded_tweet_fits_slot(t);
}

/// Two accepted requests give two tweets, each made of its own request's
/// signer, time and text alone: nothing of one request reaches the other.
pub proof fn lemma_requests_independent(
    t1: Tweet,
    author1: Pubkey,
    timestamp1: i64,
    topic1: Seq<char>,
    content1: Seq<char>,
    t2: Tweet,
    author2: Pubkey,
    timestamp2: i64,
    topic2: Seq<char>,
    content2: Seq<char>,
)
    requires
        validation(topic1, content1) is Ok,
        validation(topic2, content2) is Ok,
        t1.holds(author1, timestamp1, topic1, content1),
        t2.holds(author2, timestamp2, topic2, content2),
    ensures
        t1.author == author1 && t1.timestamp == timestamp1,
        t2.author == author2 && t2.timestamp == timestamp2,
        t1.topic@ == topic1 && t1.content@ == content1,
        t2.topic@ == topic2 && t2.content@ == content2,
        (topic1, content1) != (topic2, content2) ==> t1 != t2,
{
}

} // verus!
