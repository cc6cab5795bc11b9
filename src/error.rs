use vstd::prelude::*;

verus! {

/// The ways an instruction on a post can be rejected. Every one of them
/// aborts the instruction before anything is changed.
#[derive(Clone, Copy, Debug, PartialEq, Eq, Structural)]
pub enum CustomError {
    Unauthorized,
    AlreadyLiked,
    TooManyLikers,
    NotLiked,
    TopicTooLong,
    ContentTooLong,
}

impl CustomError {
    /// The human-readable message shown to the caller.
    pub fn message(&self) -> (r: &'static str)
        ensures
            *self == CustomError::Unauthorized ==> r@ == "You are not authorized to perform this action."@,
            *self == CustomError::AlreadyLiked ==> r@ == "Tweet already liked by this user."@,
            *self == CustomError::TooManyLikers ==> r@ == "Too many likers (limit reached)."@,
            *self == CustomError::NotLiked ==> r@ == "Tweet not yet liked by this user."@,
            *self == CustomError::TopicTooLong ==> r@ == "Topic too long (max 50 chars)."@,
            *self == CustomError::ContentTooLong ==> r@ == "Content too long (max 280 chars)."@,
    {
        match self {
            CustomError::Unauthorized => "You are not authorized to perform this action.",
            CustomError::AlreadyLiked => "Tweet already liked by this user.",
            CustomError::TooManyLikers => "Too many likers (limit reached).",
            CustomError::NotLiked => "Tweet not yet liked by this user.",
            CustomError::TopicTooLong => "Topic too long (max 50 chars).",
            CustomError::ContentTooLong => "Content too long (max 280 chars).",
        }
    }
}

} // verus!
