use solana_twitter::ErrorCode;
use solana_twitter::SendTweet;
use solana_twitter::Slot;
use solana_twitter::Tweet;
use solana_twitter::send_tweet;

fn fresh_ctx(author_byte: u8) -> SendTweet {
    SendTweet { tweet: Slot::Uninitialized, author: vec![author_byte; 32] }
}

fn committed(ctx: SendTweet) -> Tweet {
    match ctx.tweet {
        Slot::Committed(t) => t,
        Slot::Uninitialized => panic!("slot was not populated"),
    }
}

#[test]
fn record_size_is_1376() {
    assert_eq!(Tweet::LEN, 1376);
    assert_eq!(Tweet::LEN, 8 + 32 + 8 + (4 + 200) + (4 + 1120));
}

#[test]
fn hello_world_is_stored_verbatim() {
    let mut ctx = fresh_ctx(7);
    let r = send_tweet(&mut ctx, 42, String::from("hello"), String::from("world"));
    assert_eq!(r, Ok(()));
    let t = committed(ctx);
    assert_eq!(t.author, vec![7u8; 32]);
    assert_eq!(t.timestamp, 42);
    assert_eq!(t.topic, "hello");
    assert_eq!(t.content, "world");
}

#[test]
fn author_is_the_invoking_identity() {
    let mut ctx = fresh_ctx(9);
    let r = send_tweet(&mut ctx, 1, String::from("not-an-author"), String::from("text"));
    assert_eq!(r, Ok(()));
    assert_eq!(committed(ctx).author, vec![9u8; 32]);
}

#[test]
fn topic_of_51_chars_is_rejected() {
    let mut ctx = fresh_ctx(1);
    let topic: String = "a".repeat(51);
    let r = send_tweet(&mut ctx, 5, topic, String::from("fine"));
    assert_eq!(r, Err(ErrorCode::TopicTooLong));
    assert!(matches!(ctx.tweet, Slot::Uninitialized));
}

#[test]
fn content_of_281_chars_is_rejected() {
    let mut ctx = fresh_ctx(1);
    let content: String = "b".repeat(281);
    let r = send_tweet(&mut ctx, 5, String::from("fine"), content);
    assert_eq!(r, Err(ErrorCode::ContentTooLong));
    assert!(matches!(ctx.tweet, Slot::Uninitialized));
}

#[test]
fn topic_check_wins_when_both_fields_are_too_long() {
    let mut ctx = fresh_ctx(1);
    let r = send_tweet(&mut ctx, 5, "a".repeat(51), "b".repeat(281));
    assert_eq!(r, Err(ErrorCode::TopicTooLong));
}

#[test]
fn exact_caps_are_accepted() {
    let mut ctx = fresh_ctx(2);
    let r = send_tweet(&mut ctx, 5, "a".repeat(50), "b".repeat(280));
    assert_eq!(r, Ok(()));
    let t = committed(ctx);
    assert_eq!(t.topic.len(), 50);
    assert_eq!(t.content.len(), 280);
}

#[test]
fn caps_count_characters_not_bytes() {
    // 50 four-byte characters: 200 bytes of UTF-8, still only 50 characters.
    let topic: String = "\u{10348}".repeat(50);
    assert_eq!(topic.len(), 200);
    let content: String = "\u{1F600}".repeat(280);
    let mut ctx = fresh_ctx(3);
    let r = send_tweet(&mut ctx, 5, topic.clone(), content.clone());
    assert_eq!(r, Ok(()));
    let t = committed(ctx);
    assert_eq!(t.topic, topic);
    assert_eq!(t.content, content);
}

#[test]
fn fifty_one_multibyte_chars_are_rejected() {
    let mut ctx = fresh_ctx(3);
    let r = send_tweet(&mut ctx, 5, "\u{10348}".repeat(51), String::from("x"));
    assert_eq!(r, Err(ErrorCode::TopicTooLong));
}

#[test]
fn timestamps_follow_the_supplied_clock() {
    // A controllable clock: each invocation hands the operation the value the
    // environment read for it; stored timestamps come back in that order.
    let clock = [100i64, 150, 150, 4000];
    let mut stored = Vec::new();
    for (i, now) in clock.iter().enumerate() {
        let mut ctx = fresh_ctx(i as u8);
        let r = send_tweet(&mut ctx, *now, format!("t{i}"), format!("c{i}"));
        assert_eq!(r, Ok(()));
        stored.push(committed(ctx).timestamp);
    }
    assert_eq!(stored, vec![100, 150, 150, 4000]);
    assert!(stored.windows(2).all(|w| w[0] <= w[1]));
}

#[test]
fn error_messages_match_the_caps() {
    assert_eq!(
        ErrorCode::TopicTooLong.message(),
        "The provided topic should be 50 characters long maximum."
    );
    assert_eq!(
        ErrorCode::ContentTooLong.message(),
        "The provided content should be 280 characters long maximum."
    );
}
