use vstd::prelude::*;

use crate::address::Address;
use crate::error::CustomError;
use crate::instructions::{delete_model, like_model, send_model, unlike_model, update_model};
use crate::likers::lemma_without_absent;
use crate::tweet::{byte_len, TweetView, MAX_CONTENT_LEN, MAX_LIKERS, MAX_TOPIC_LEN};

verus! {

/// A post sent with a topic and content within the limits holds exactly
/// what was sent, stamped with the clock, with no likes, and is well formed.
pub proof fn law_send_then_read(
    author: Address,
    now: int,
    topic: Seq<char>,
    content: Seq<char>,
    parent: Option<Address>,
    retweet_of: Option<Address>,
)
    requires
        byte_len(topic) <= MAX_TOPIC_LEN,
        byte_len(content) <= MAX_CONTENT_LEN,
    ensures
        send_model(author, now, topic, content, parent, retweet_of) matches Ok(v) && v.author
            == author && v.topic == topic && v.content == content && v.timestamp == now
            && v.likes_count == 0 && v.likers == Seq::<Address>::empty() && v.parent == parent
            && v.retweet_of == retweet_of && v.wf(),
{
}

/// Sending a topic longer than the limit fails with `TopicTooLong` and
/// yields no post.
pub proof fn law_send_rejects_long_topic(
    author: Address,
    now: int,
    topic: Seq<char>,
    content: Seq<char>,
    parent: Option<Address>,
    retweet_of: Option<Address>,
)
    requires
        byte_len(topic) > MAX_TOPIC_LEN,
    ensures
        send_model(author, now, topic, content, parent, retweet_of) == Err::<TweetView, CustomError>(
            CustomError::TopicTooLong,
        ),
{
}

/// An update by anyone but the author, with a topic and content within the
/// limits, fails with `Unauthorized`; the post keeps its topic and content.
pub proof fn law_update_by_stranger(
    t: TweetView,
    caller: Address,
    topic: Seq<char>,
    content: Seq<char>,
)
    requires
        caller != t.author,
        byte_len(topic) <= MAX_TOPIC_LEN,
        byte_len(content) <= MAX_CONTENT_LEN,
    ensures
        update_model(t, caller, topic, content) == Err::<TweetView, CustomError>(
            CustomError::Unauthorized,
        ),
{
}

/// A second like by the same address fails with `AlreadyLiked`; the first
/// raised the count by exactly one.
pub proof fn law_like_twice(t: TweetView, liker: Address)
    requires
        t.wf(),
    ensures
        like_model(t, liker) matches Ok(t1) ==> t1.likes_count == t.likes_count + 1 && like_model(
            t1,
            liker,
        ) == Err::<TweetView, CustomError>(CustomError::AlreadyLiked),
{
    assert(t.likers.push(liker)[t.likers.len() as int] == liker);
}

/// A post that holds the most likers refuses a like from a new address with
/// `TooManyLikers`, and its count stays at the limit.
pub proof fn law_like_capacity(t: TweetView, liker: Address)
    requires
        t.wf(),
        t.likers.len() == MAX_LIKERS,
        !t.likers.contains(liker),
    ensures
        like_model(t, liker) == Err::<TweetView, CustomError>(CustomError::TooManyLikers),
        t.likes_count == MAX_LIKERS,
{
}

/// A like followed by an unlike by the same address gives back the post
/// exactly as it was, likers and count included.
pub proof fn law_like_unlike_round_trip(t: TweetView, liker: Address)
    requires
        t.wf(),
    ensures
        like_model(t, liker) matches Ok(t1) ==> unlike_model(t1, liker) == Ok::<
            TweetView,
            CustomError,
        >(t),
{
    if like_model(t, liker) is Ok {
        t.likers.lemma_filter_push(liker, crate::likers::differs_from(liker));
        lemma_without_absent(t.likers, liker);
        assert(t.likers.push(liker).contains(liker)) by {
            assert(t.likers.push(liker)[t.likers.len() as int] == liker);
        }
    }
}

/// An unlike by an address that is not among the likers fails with
/// `NotLiked`.
pub proof fn law_unlike_stranger(t: TweetView, liker: Address)
    requires
        !t.likers.contains(liker),
    ensures
        unlike_model(t, liker) == Err::<TweetView, CustomError>(CustomError::NotLiked),
{
}

/// A delete by anyone but the author fails with `Unauthorized`, so the post
/// and its account stay.
pub proof fn law_delete_by_stranger(t: TweetView, caller: Address)
    requires
        caller != t.author,
    ensures
        delete_model(t, caller) == Err::<(), CustomError>(CustomError::Unauthorized),
{
}

} // verus!
