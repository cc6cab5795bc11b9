use twitter_dapp::address::Address;
use twitter_dapp::error::CustomError;
use twitter_dapp::instructions::{
    delete_tweet, like_tweet, send_tweet, unlike_tweet, update_tweet, DeleteTweet, LikeTweet,
    SendTweet, UpdateTweet,
};
use twitter_dapp::tweet::{Tweet, MAX_CONTENT_LEN, MAX_LIKERS, MAX_TOPIC_LEN, TWEET_SPACE};

fn addr(n: u8) -> Address {
    let mut bytes = [0u8; 32];
    bytes[0] = n;
    bytes[31] = n.wrapping_mul(7);
    Address::new(bytes)
}

fn sent(author: Address, topic: &str, content: &str) -> Tweet {
    let ctx = SendTweet { author, now: 1_700_000_000 };
    send_tweet(&ctx, topic.to_string(), content.to_string(), None, None).unwrap()
}

#[test]
fn send_fills_every_field() {
    let ctx = SendTweet { author: addr(1), now: 42 };
    let t = send_tweet(
        &ctx,
        "topic".to_string(),
        "body".to_string(),
        Some(addr(9)),
        Some(addr(8)),
    )
    .unwrap();
    assert_eq!(t.author, addr(1));
    assert_eq!(t.topic, "topic");
    assert_eq!(t.content, "body");
    assert_eq!(t.timestamp, 42);
    assert_eq!(t.likes_count, 0);
    assert!(t.likers.is_empty());
    assert_eq!(t.parent, Some(addr(9)));
    assert_eq!(t.retweet_of, Some(addr(8)));
}

#[test]
fn send_accepts_limits_exactly() {
    let topic = "a".repeat(MAX_TOPIC_LEN);
    let content = "b".repeat(MAX_CONTENT_LEN);
    let t = sent(addr(1), &topic, &content);
    assert_eq!(t.topic.len(), 50);
    assert_eq!(t.content.len(), 280);
}

#[test]
fn send_rejects_long_topic() {
    let ctx = SendTweet { author: addr(1), now: 0 };
    let r = send_tweet(&ctx, "a".repeat(51), "ok".to_string(), None, None);
    assert_eq!(r, Err(CustomError::TopicTooLong));
}

#[test]
fn send_rejects_long_content() {
    let ctx = SendTweet { author: addr(1), now: 0 };
    let r = send_tweet(&ctx, "ok".to_string(), "b".repeat(281), None, None);
    assert_eq!(r, Err(CustomError::ContentTooLong));
}

#[test]
fn send_checks_topic_before_content() {
    let ctx = SendTweet { author: addr(1), now: 0 };
    let r = send_tweet(&ctx, "a".repeat(51), "b".repeat(281), None, None);
    assert_eq!(r, Err(CustomError::TopicTooLong));
}

#[test]
fn send_measures_topic_in_bytes() {
    // 25 two-byte characters fit, 26 do not, though 26 characters are fewer than 50.
    let ctx = SendTweet { author: addr(1), now: 0 };
    assert!(send_tweet(&ctx, "é".repeat(25), String::new(), None, None).is_ok());
    let r = send_tweet(&ctx, "é".repeat(26), String::new(), None, None);
    assert_eq!(r, Err(CustomError::TopicTooLong));
}

#[test]
fn send_as_reply_and_retweet_at_once() {
    let ctx = SendTweet { author: addr(2), now: 7 };
    let t = send_tweet(&ctx, String::new(), String::new(), Some(addr(3)), Some(addr(3))).unwrap();
    assert_eq!(t.parent, Some(addr(3)));
    assert_eq!(t.retweet_of, Some(addr(3)));
}

#[test]
fn update_by_author_replaces_texts() {
    let t = sent(addr(1), "old", "old body");
    let mut ctx = UpdateTweet { tweet: t.clone(), author: addr(1) };
    assert_eq!(update_tweet(&mut ctx, "new".to_string(), "new body".to_string()), Ok(()));
    assert_eq!(ctx.tweet.topic, "new");
    assert_eq!(ctx.tweet.content, "new body");
    assert_eq!(ctx.tweet.author, t.author);
    assert_eq!(ctx.tweet.timestamp, t.timestamp);
    assert_eq!(ctx.tweet.likers, t.likers);
}

#[test]
fn update_by_stranger_is_unauthorized() {
    let t = sent(addr(1), "old", "old body");
    let mut ctx = UpdateTweet { tweet: t.clone(), author: addr(2) };
    let r = update_tweet(&mut ctx, "new".to_string(), "new body".to_string());
    assert_eq!(r, Err(CustomError::Unauthorized));
    assert_eq!(ctx.tweet, t);
}

#[test]
fn update_checks_lengths_before_author() {
    let t = sent(addr(1), "old", "old body");
    let mut ctx = UpdateTweet { tweet: t.clone(), author: addr(2) };
    let r = update_tweet(&mut ctx, "a".repeat(51), "x".to_string());
    assert_eq!(r, Err(CustomError::TopicTooLong));
    let r = update_tweet(&mut ctx, "x".to_string(), "b".repeat(281));
    assert_eq!(r, Err(CustomError::ContentTooLong));
    assert_eq!(ctx.tweet, t);
}

#[test]
fn delete_by_author_is_allowed() {
    let ctx = DeleteTweet { tweet: sent(addr(1), "t", "c"), author: addr(1) };
    assert_eq!(delete_tweet(&ctx), Ok(()));
}

#[test]
fn delete_by_stranger_keeps_post() {
    let t = sent(addr(1), "t", "c");
    let ctx = DeleteTweet { tweet: t.clone(), author: addr(2) };
    assert_eq!(delete_tweet(&ctx), Err(CustomError::Unauthorized));
    assert_eq!(ctx.tweet, t);
}

#[test]
fn like_twice_is_already_liked() {
    let mut ctx = LikeTweet { tweet: sent(addr(1), "t", "c"), liker: addr(2) };
    assert_eq!(like_tweet(&mut ctx), Ok(()));
    assert_eq!(ctx.tweet.likes_count, 1);
    assert_eq!(like_tweet(&mut ctx), Err(CustomError::AlreadyLiked));
    assert_eq!(ctx.tweet.likes_count, 1);
    assert_eq!(ctx.tweet.likers, vec![addr(2)]);
}

#[test]
fn twenty_first_liker_is_refused() {
    let mut tweet = sent(addr(1), "t", "c");
    for n in 0..MAX_LIKERS as u8 {
        let mut ctx = LikeTweet { tweet, liker: addr(100 + n) };
        assert_eq!(like_tweet(&mut ctx), Ok(()));
        tweet = ctx.tweet;
    }
    assert_eq!(tweet.likes_count, 20);
    let before = tweet.clone();
    let mut ctx = LikeTweet { tweet, liker: addr(200) };
    assert_eq!(like_tweet(&mut ctx), Err(CustomError::TooManyLikers));
    assert_eq!(ctx.tweet.likes_count, 20);
    assert_eq!(ctx.tweet, before);
}

#[test]
fn full_post_reports_already_liked_first() {
    let mut tweet = sent(addr(1), "t", "c");
    for n in 0..MAX_LIKERS as u8 {
        let mut ctx = LikeTweet { tweet, liker: addr(100 + n) };
        like_tweet(&mut ctx).unwrap();
        tweet = ctx.tweet;
    }
    let mut ctx = LikeTweet { tweet, liker: addr(105) };
    assert_eq!(like_tweet(&mut ctx), Err(CustomError::AlreadyLiked));
}

#[test]
fn like_then_unlike_restores_post() {
    let mut ctx = LikeTweet { tweet: sent(addr(1), "t", "c"), liker: addr(3) };
    like_tweet(&mut ctx).unwrap();
    let before = ctx.tweet.clone();
    ctx.liker = addr(4);
    assert_eq!(like_tweet(&mut ctx), Ok(()));
    assert_eq!(ctx.tweet.likers, vec![addr(3), addr(4)]);
    assert_eq!(unlike_tweet(&mut ctx), Ok(()));
    assert_eq!(ctx.tweet, before);
}

#[test]
fn unlike_keeps_order_of_others() {
    let mut ctx = LikeTweet { tweet: sent(addr(1), "t", "c"), liker: addr(3) };
    like_tweet(&mut ctx).unwrap();
    ctx.liker = addr(4);
    like_tweet(&mut ctx).unwrap();
    ctx.liker = addr(5);
    like_tweet(&mut ctx).unwrap();
    ctx.liker = addr(4);
    assert_eq!(unlike_tweet(&mut ctx), Ok(()));
    assert_eq!(ctx.tweet.likers, vec![addr(3), addr(5)]);
    assert_eq!(ctx.tweet.likes_count, 2);
}

#[test]
fn unlike_by_stranger_is_not_liked() {
    let mut ctx = LikeTweet { tweet: sent(addr(1), "t", "c"), liker: addr(3) };
    like_tweet(&mut ctx).unwrap();
    let before = ctx.tweet.clone();
    ctx.liker = addr(9);
    assert_eq!(unlike_tweet(&mut ctx), Err(CustomError::NotLiked));
    assert_eq!(ctx.tweet, before);
}

#[test]
fn unlike_saturates_count_at_zero() {
    let mut tweet = sent(addr(1), "t", "c");
    tweet.likers = vec![addr(3)];
    tweet.likes_count = 0;
    let mut ctx = LikeTweet { tweet, liker: addr(3) };
    assert_eq!(unlike_tweet(&mut ctx), Ok(()));
    assert_eq!(ctx.tweet.likes_count, 0);
    assert!(ctx.tweet.likers.is_empty());
}

#[test]
fn unlike_removes_every_occurrence() {
    let mut tweet = sent(addr(1), "t", "c");
    tweet.likers = vec![addr(3), addr(4), addr(3)];
    tweet.likes_count = 3;
    let mut ctx = LikeTweet { tweet, liker: addr(3) };
    assert_eq!(unlike_tweet(&mut ctx), Ok(()));
    assert_eq!(ctx.tweet.likers, vec![addr(4)]);
    assert_eq!(ctx.tweet.likes_count, 2);
}

#[test]
fn scenario_send_like_like_unlike() {
    let a = addr(0xA);
    let b = addr(0xB);
    let ctx = SendTweet { author: a, now: 1_000 };
    let t = send_tweet(&ctx, "rust".to_string(), "hello world".to_string(), None, None).unwrap();
    assert_eq!(t.author, a);
    assert_eq!(t.topic, "rust");
    assert_eq!(t.content, "hello world");
    assert_eq!(t.likes_count, 0);
    assert!(t.likers.is_empty());
    assert_eq!(t.parent, None);
    assert_eq!(t.retweet_of, None);

    let mut ctx = LikeTweet { tweet: t, liker: b };
    assert_eq!(like_tweet(&mut ctx), Ok(()));
    assert_eq!(ctx.tweet.likers, vec![b]);
    assert_eq!(ctx.tweet.likes_count, 1);

    let before = ctx.tweet.clone();
    assert_eq!(like_tweet(&mut ctx), Err(CustomError::AlreadyLiked));
    assert_eq!(ctx.tweet, before);

    assert_eq!(unlike_tweet(&mut ctx), Ok(()));
    assert!(ctx.tweet.likers.is_empty());
    assert_eq!(ctx.tweet.likes_count, 0);
}

#[test]
fn account_space_budgets_every_field() {
    assert_eq!(TWEET_SPACE, 8 + 32 + 54 + 284 + 8 + 4 + 644 + 33 + 33);
    assert_eq!(TWEET_SPACE, 1100);
}

#[test]
fn addresses_compare_by_every_byte() {
    let mut x = [5u8; 32];
    let y = Address::new(x);
    assert_eq!(y, Address::new(x));
    x[31] = 6;
    assert_ne!(y, Address::new(x));
    assert_eq!(Address::new(x).to_bytes(), x);
}

#[test]
fn error_messages() {
    assert_eq!(
        CustomError::Unauthorized.message(),
        "You are not authorized to perform this action."
    );
    assert_eq!(CustomError::AlreadyLiked.message(), "Tweet already liked by this user.");
    assert_eq!(CustomError::TooManyLikers.message(), "Too many likers (limit reached).");
    assert_eq!(CustomError::NotLiked.message(), "Tweet not yet liked by this user.");
    assert_eq!(CustomError::TopicTooLong.message(), "Topic too long (max 50 chars).");
    assert_eq!(CustomError::ContentTooLong.message(), "Content too long (max 280 chars).");
}
