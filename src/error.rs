use vstd::prelude::*;

verus! {

/// Why a tweet could not be created. Both kinds are the caller's to correct:
/// the same input fails the same way on every try.
#[derive(Clone, Copy, Debug, PartialEq, Eq, Structural)]
pub enum ErrorCode {
    /// The topic holds more than fifty characters.
    TopicTooLong,
    /// The content holds more than two hundred and eighty characters.
    ContentTooLong,
}

} // verus!
