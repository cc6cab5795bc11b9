use vstd::prelude::*;

use crate::address::Address;
use crate::error::CustomError;
use crate::likers::{
    has_liked, lemma_without_members, lemma_without_present, remove_liker, without,
};
use crate::tweet::{byte_len, Tweet, TweetView, MAX_CONTENT_LEN, MAX_LIKERS, MAX_TOPIC_LEN};

verus! {

/// What `send_tweet` is given: the signer who becomes the author, and the
/// ledger's clock at the time of the call.
#[derive(Clone, Copy, Debug)]
pub struct SendTweet {
    pub author: Address,
    pub now: i64,
}

/// What `update_tweet` is given: the stored post and the signer.
#[derive(Clone, Debug)]
pub struct UpdateTweet {
    pub tweet: Tweet,
    pub author: Address,
}

/// What `delete_tweet` is given: the stored post and the signer.
#[derive(Clone, Debug)]
pub struct DeleteTweet {
    pub tweet: Tweet,
    pub author: Address,
}

/// What `like_tweet` and `unlike_tweet` are given: the stored post and the
/// signer who likes or unlikes it.
#[derive(Clone, Debug)]
pub struct LikeTweet {
    pub tweet: Tweet,
    pub liker: Address,
}

/// The post that creating one yields, or the error.
pub open spec fn send_model(
    author: Address,
    now: int,
    topic: Seq<char>,
    content: Seq<char>,
    parent: Option<Address>,
    retweet_of: Option<Address>,
) -> Result<TweetView, CustomError> {
    if byte_len(topic) > MAX_TOPIC_LEN {
        Err(CustomError::TopicTooLong)
    } else if byte_len(content) > MAX_CONTENT_LEN {
        Err(CustomError::ContentTooLong)
    } else {
        Ok(
            TweetView {
                author,
                topic,
                content,
                timestamp: now,
                likes_count: 0,
                likers: Seq::empty(),
                parent,
                retweet_of,
            },
        )
    }
}

/// The post after `caller` replaces its topic and content, or the error.
pub open spec fn update_model(
    t: TweetView,
    caller: Address,
    topic: Seq<char>,
    content: Seq<char>,
) -> Result<TweetView, CustomError> {
    if byte_len(topic) > MAX_TOPIC_LEN {
        Err(CustomError::TopicTooLong)
    } else if byte_len(content) > MAX_CONTENT_LEN {
        Err(CustomError::ContentTooLong)
    } else if t.author != caller {
        Err(CustomError::Unauthorized)
    } else {
        Ok(TweetView { topic, content, ..t })
    }
}

/// Whether `caller` may delete the post.
pub open spec fn delete_model(t: TweetView, caller: Address) -> Result<(), CustomError> {
    if t.author != caller {
        Err(CustomError::Unauthorized)
    } else {
        Ok(())
    }
}

/// The post after `liker` likes it, or the error.
pub open spec fn like_model(t: TweetView, liker: Address) -> Result<TweetView, CustomError> {
    if t.likers.contains(liker) {
        Err(CustomError::AlreadyLiked)
    } else if t.likers.len() >= MAX_LIKERS {
        Err(CustomError::TooManyLikers)
    } else {
        Ok(TweetView { likes_count: t.likes_count + 1, likers: t.likers.push(liker), ..t })
    }
}

/// The post after `liker` takes back a like, or the error.
pub open spec fn unlike_model(t: TweetView, liker: Address) -> Result<TweetView, CustomError> {
    if !t.likers.contains(liker) {
        Err(CustomError::NotLiked)
    } else {
        Ok(
            TweetView {
                likes_count: if t.likes_count == 0 {
                    0
                } else {
                    (t.likes_count - 1) as nat
                },
                likers: without(t.likers, liker),
                ..t
            },
        )
    }
}

/// An instruction on a stored post took effect as `model` says: on success
/// the post became the model's, on failure the same error came back and the
/// post was left as it was.
pub open spec fn applied(
    r: Result<(), CustomError>,
    before: TweetView,
    after: TweetView,
    model: Result<TweetView, CustomError>,
) -> bool {
    match model {
        Ok(v) => r is Ok && after == v,
        Err(e) => r == Err::<(), CustomError>(e) && after == before,
    }
}

/// Creates a post whose author is the signer, stamped with the ledger's
/// clock, with no likes, and with the given references copied as they are.
pub fn send_tweet(
    ctx: &SendTweet,
    topic: String,
    content: String,
    parent: Option<Address>,
    retweet_of: Option<Address>,
) -> (r: Result<Tweet, CustomError>)
    requires
        byte_len(topic@) <= usize::MAX,
        byte_len(content@) <= usize::MAX,
    ensures
        match send_model(ctx.author, ctx.now as int, topic@, content@, parent, retweet_of) {
            Ok(v) => r matches Ok(t) && t@ == v,
            Err(e) => r == Err::<Tweet, CustomError>(e),
        },
        r matches Ok(t) ==> t@.wf(),
{
    if topic.as_str().len() > MAX_TOPIC_LEN {
        return Err(CustomError::TopicTooLong);
    }
    if content.as_str().len() > MAX_CONTENT_LEN {
        return Err(CustomError::ContentTooLong);
    }
    Ok(
        Tweet {
            author: ctx.author,
            topic,
            content,
            timestamp: ctx.now,
            likes_count: 0,
            likers: Vec::new(),
            parent,
            retweet_of,
        },
    )
}

/// Replaces the topic and content of a post; only its author may.
pub fn update_tweet(ctx: &mut UpdateTweet, new_topic: String, new_content: String) -> (r: Result<
    (),
    CustomError,
>)
    requires
        byte_len(new_topic@) <= usize::MAX,
        byte_len(new_content@) <= usize::MAX,
    ensures
        final(ctx).author == old(ctx).author,
        applied(
            r,
            old(ctx).tweet@,
            final(ctx).tweet@,
            update_model(old(ctx).tweet@, old(ctx).author, new_topic@, new_content@),
        ),
        old(ctx).tweet@.wf() ==> final(ctx).tweet@.wf(),
{
    if new_topic.as_str().len() > MAX_TOPIC_LEN {
        return Err(CustomError::TopicTooLong);
    }
    if new_content.as_str().len() > MAX_CONTENT_LEN {
        return Err(CustomError::ContentTooLong);
    }
    if ctx.tweet.author != ctx.author {
        return Err(CustomError::Unauthorized);
    }
    ctx.tweet.topic = new_topic;
    ctx.tweet.content = new_content;
    Ok(())
}

/// Decides whether the signer may delete the post: only its author may.
/// On success the account store closes the post's account and returns its
/// funds to the author; on failure the post stays as it is.
pub fn delete_tweet(ctx: &DeleteTweet) -> (r: Result<(), CustomError>)
    ensures
        r == delete_model(ctx.tweet@, ctx.author),
{
    if ctx.tweet.author != ctx.author {
        return Err(CustomError::Unauthorized);
    }
    Ok(())
}

/// Records a like by the signer, once per address and at most
/// `MAX_LIKERS` in all.
pub fn like_tweet(ctx: &mut LikeTweet) -> (r: Result<(), CustomError>)
    requires
        old(ctx).tweet.likes_count < u32::MAX,
    ensures
        final(ctx).liker == old(ctx).liker,
        applied(r, old(ctx).tweet@, final(ctx).tweet@, like_model(old(ctx).tweet@, old(ctx).liker)),
        old(ctx).tweet@.wf() ==> final(ctx).tweet@.wf(),
{
    let liker = ctx.liker;
    if has_liked(&ctx.tweet.likers, &liker) {
        return Err(CustomError::AlreadyLiked);
    }
    if ctx.tweet.likers.len() >= MAX_LIKERS {
        return Err(CustomError::TooManyLikers);
    }
    ctx.tweet.likes_count = ctx.tweet.likes_count + 1;
    ctx.tweet.likers.push(liker);
    proof {
        let before = old(ctx).tweet@.likers;
        if before.no_duplicates() {
            assert forall|i: int, j: int|
                0 <= i < before.len() + 1 && 0 <= j < before.len() + 1 && i != j implies before.push(
                liker,
            )[i] != before.push(liker)[j] by {
                if i < before.len() && j < before.len() {
                } else if i < before.len() {
                    assert(before.contains(before[i]));
                } else {
                    assert(before.contains(before[j]));
                }
            }
        }
    }
    Ok(())
}

/// Takes back the signer's like: every occurrence of the signer leaves the
/// likers, and the count drops by one without going below zero.
pub fn unlike_tweet(ctx: &mut LikeTweet) -> (r: Result<(), CustomError>)
    ensures
        final(ctx).liker == old(ctx).liker,
        applied(
            r,
            old(ctx).tweet@,
            final(ctx).tweet@,
            unlike_model(old(ctx).tweet@, old(ctx).liker),
        ),
        old(ctx).tweet@.wf() ==> final(ctx).tweet@.wf(),
{
    let liker = ctx.liker;
    if !has_liked(&ctx.tweet.likers, &liker) {
        return Err(CustomError::NotLiked);
    }
    ctx.tweet.likes_count = ctx.tweet.likes_count.saturating_sub(1);
    ctx.tweet.likers = remove_liker(&ctx.tweet.likers, &liker);
    proof {
        let before = old(ctx).tweet@.likers;
        lemma_without_members(before, liker);
        if old(ctx).tweet@.wf() {
            lemma_without_present(before, liker);
        }
    }
    Ok(())
}

} // verus!
