use vstd::prelude::*;
use vstd::utf8::encode_utf8;

use crate::address::Address;

verus! {

/// Longest topic, in bytes of its UTF-8 encoding.
pub const MAX_TOPIC_LEN: usize = 50;

/// Longest content, in bytes of its UTF-8 encoding.
pub const MAX_CONTENT_LEN: usize = 280;

/// Most addresses that may like one post.
pub const MAX_LIKERS: usize = 20;

/// Bytes allocated for a post's account: every field at its largest.
/// Discriminator 8, author 32, topic 4 + 50, content 4 + 280, timestamp 8,
/// likes count 4, likers 4 + 32 * 20, parent 1 + 32, retweet 1 + 32.
pub const TWEET_SPACE: usize = 8 + 32 + 4 + 50 + 4 + 280 + 8 + 4 + 4 + 32 * 20 + 33 + 33;

/// Length of a text as the limits measure it: bytes of its UTF-8 encoding.
pub open spec fn byte_len(s: Seq<char>) -> nat {
    encode_utf8(s).len()
}

/// A post as stored in its account.
#[derive(Clone, Debug, PartialEq, Eq)]
pub struct Tweet {
    pub author: Address,
    pub topic: String,
    pub content: String,
    pub timestamp: i64,
    pub likes_count: u32,
    pub likers: Vec<Address>,
    pub parent: Option<Address>,
    pub retweet_of: Option<Address>,
}

/// The mathematical value of a post.
pub ghost struct TweetView {
    pub author: Address,
    pub topic: Seq<char>,
    pub content: Seq<char>,
    pub timestamp: int,
    pub likes_count: nat,
    pub likers: Seq<Address>,
    pub parent: Option<Address>,
    pub retweet_of: Option<Address>,
}

impl View for Tweet {
    type V = TweetView;

    open spec fn view(&self) -> TweetView {
        TweetView {
            author: self.author,
            topic: self.topic@,
            content: self.content@,
            timestamp: self.timestamp as int,
            likes_count: self.likes_count as nat,
            likers: self.likers@,
            parent: self.parent,
            retweet_of: self.retweet_of,
        }
    }
}

/// Bytes that an optional address takes when stored: a presence flag, then
/// the address if there is one.
pub open spec fn option_len(o: Option<Address>) -> nat {
    match o {
        Some(_) => 33,
        None => 1,
    }
}

impl TweetView {
    /// The invariant of every stored post.
    pub open spec fn wf(self) -> bool {
        &&& self.likes_count == self.likers.len()
        &&& self.likers.no_duplicates()
        &&& self.likers.len() <= MAX_LIKERS
        &&& byte_len(self.topic) <= MAX_TOPIC_LEN
        &&& byte_len(self.content) <= MAX_CONTENT_LEN
    }

    /// Bytes that the post takes when stored: discriminator, author, each
    /// text and the likers behind a four-byte length, timestamp, likes
    /// count and the two optional references.
    pub open spec fn stored_len(self) -> nat {
        8 + 32 + (4 + byte_len(self.topic)) + (4 + byte_len(self.content)) + 8 + 4 + (4 + 32
            * self.likers.len()) + option_len(self.parent) + option_len(self.retweet_of)
    }
}

/// Every well-formed post fits in the space allocated for it when it was
/// created.
pub proof fn lemma_fits_allocation(t: TweetView)
    requires
        t.wf(),
    ensures
        t.stored_len() <= TWEET_SPACE,
{
}

} // verus!
