//! A single on-chain record type, a tweet, and the instruction that creates
//! one after checking the bounds of its text fields.

pub mod error;
pub mod instruction;
pub mod tweet;

pub use error::ErrorCode;
pub use instruction::{send_tweet, validate, SendTweet};
pub use tweet::{
    size_of_record, Tweet, DISCRIMINATOR_LENGTH, MAX_CONTENT_CHARS, MAX_CONTENT_LENGTH,
    MAX_TOPIC_CHARS, MAX_TOPIC_LENGTH, PUBLIC_KEY_LENGTH, STRING_LENGTH_PREFIX, TIMESTAMP_LENGTH,
};
