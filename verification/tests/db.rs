use tgreddit::config::Config;
use tgreddit::db::store::{Database, StoreError};
use tgreddit::reddit::kinds::{PostType, TopPostsTimePeriod};
use tgreddit::reddit::types::Post;
use tgreddit::types::{Subscription, SubscriptionArgs};

fn cow_post() -> Post {
    Post {
        id: "v6nu75".into(),
        created: 1654581100,
        post_hint: Some("link".into()),
        subreddit: "absoluteunit".into(),
        title: "Tipping a cow to trim its hooves".into(),
        is_self: false,
        is_video: false,
        ups: 469,
        permalink: "/r/absoluteunit/comments/v6nu75/tipping_a_cow_to_trim_its_hooves/".into(),
        url: "https://i.imgur.com/Zt6f5mB.gifv".into(),
        post_type: PostType::Video,
        crosspost_parent_list: None,
        is_gallery: None,
        gallery_data: None,
        media_metadata: None,
    }
}

fn test_args() -> SubscriptionArgs {
    SubscriptionArgs {
        subreddit: "test".to_string(),
        limit: Some(1),
        time: Some(TopPostsTimePeriod::Week),
        filter: Some(PostType::Video),
    }
}

#[test]
fn test_db() {
    let config = Config::default();
    let mut db = Database::open(&config).unwrap();
    db.migrate().unwrap();
    let post = cow_post();

    assert!(!db.existing_posts_for_subreddit(1, "absoluteunit").unwrap());
    db.mark_post_seen(1, &post).unwrap();
    assert!(db.is_post_seen(1, &post).unwrap());
    assert!(db.existing_posts_for_subreddit(1, "absoluteunit").unwrap());
}

#[test]
fn test_db_subscribe() {
    let config = Config::default();
    let mut db = Database::open(&config).unwrap();
    db.migrate().unwrap();
    let subscription_args = test_args();
    db.subscribe(1, &subscription_args).unwrap();

    let subs = db.get_subscriptions_for_chat(1).unwrap();
    assert_eq!(
        subs,
        vec![Subscription {
            chat_id: 1,
            subreddit: "test".to_string(),
            limit: Some(1),
            time: Some(TopPostsTimePeriod::Week),
            filter: Some(PostType::Video),
        }]
    );
}

#[test]
fn test_db_unsubscribe() {
    let config = Config::default();
    let mut db = Database::open(&config).unwrap();
    db.migrate().unwrap();
    let subscription_args = test_args();
    db.subscribe(1, &subscription_args).unwrap();
    let subs = db.get_subscriptions_for_chat(1).unwrap();
    assert_eq!(subs.len(), 1);
    let deleted = db.unsubscribe(1, "test").unwrap();
    assert!(deleted);
    let subs = db.get_subscriptions_for_chat(1).unwrap();
    assert_eq!(subs, vec![]);
}

#[test]
fn store_without_tables_refuses() {
    let mut db = Database::open(&Config::default()).unwrap();
    let post = cow_post();
    assert_eq!(db.is_post_seen(1, &post), Err(StoreError::NoSuchTable));
    assert_eq!(db.mark_post_seen(1, &post), Err(StoreError::NoSuchTable));
    assert_eq!(
        db.existing_posts_for_subreddit(1, "absoluteunit"),
        Err(StoreError::NoSuchTable)
    );
    assert_eq!(db.subscribe(1, &test_args()), Err(StoreError::NoSuchTable));
    assert_eq!(db.unsubscribe(1, "test"), Err(StoreError::NoSuchTable));
    assert_eq!(db.get_subscriptions_for_chat(1), Err(StoreError::NoSuchTable));
    assert_eq!(db.get_all_subscriptions(), Err(StoreError::NoSuchTable));
}

#[test]
fn mark_post_seen_twice_is_no_error() {
    let mut db = Database::open(&Config::default()).unwrap();
    db.migrate().unwrap();
    let post = cow_post();
    assert!(!db.is_post_seen(1, &post).unwrap());
    db.mark_post_seen_at(1, &post, 10).unwrap();
    db.mark_post_seen_at(1, &post, 20).unwrap();
    db.mark_post_seen(1, &post).unwrap();
    assert!(db.is_post_seen(1, &post).unwrap());
    assert!(!db.is_post_seen(2, &post).unwrap());
    assert!(!db.existing_posts_for_subreddit(2, "absoluteunit").unwrap());
    assert!(!db.existing_posts_for_subreddit(1, "AbsoluteUnit").unwrap());
}

#[test]
fn seen_posts_stay_seen() {
    let mut db = Database::open(&Config::default()).unwrap();
    db.migrate().unwrap();
    let post = cow_post();
    db.mark_post_seen(1, &post).unwrap();
    let mut other = cow_post();
    other.id = "zzz999".into();
    db.mark_post_seen(1, &other).unwrap();
    db.mark_post_seen(2, &other).unwrap();
    db.subscribe(1, &test_args()).unwrap();
    db.unsubscribe(1, "%").unwrap();
    db.migrate().unwrap();
    assert!(db.is_post_seen(1, &post).unwrap());
    assert!(db.is_post_seen(1, &other).unwrap());
    assert!(db.is_post_seen(2, &other).unwrap());
}

#[test]
fn second_subscription_conflicts() {
    let mut db = Database::open(&Config::default()).unwrap();
    db.migrate().unwrap();
    db.subscribe(1, &test_args()).unwrap();
    let mut again = test_args();
    again.limit = Some(9);
    assert_eq!(db.subscribe(1, &again), Err(StoreError::Conflict));
    let subs = db.get_subscriptions_for_chat(1).unwrap();
    assert_eq!(subs.len(), 1);
    assert_eq!(subs[0].limit, Some(1));
    db.subscribe(2, &again).unwrap();
    assert_eq!(db.get_all_subscriptions().unwrap().len(), 2);
}

#[test]
fn second_subscription_overwrites_where_allowed() {
    let mut db = Database::open(&Config::default()).unwrap();
    db.migrate().unwrap();
    db.set_reject_overwrites(false);
    db.subscribe(1, &test_args()).unwrap();
    let mut other = test_args();
    other.subreddit = "other".to_string();
    db.subscribe(1, &other).unwrap();
    let mut again = test_args();
    again.limit = Some(9);
    again.filter = None;
    db.subscribe(1, &again).unwrap();
    let subs = db.get_subscriptions_for_chat(1).unwrap();
    assert_eq!(
        subs,
        vec![
            Subscription {
                chat_id: 1,
                subreddit: "test".to_string(),
                limit: Some(9),
                time: Some(TopPostsTimePeriod::Week),
                filter: None,
            },
            Subscription {
                chat_id: 1,
                subreddit: "other".to_string(),
                limit: Some(1),
                time: Some(TopPostsTimePeriod::Week),
                filter: Some(PostType::Video),
            },
        ]
    );
}

#[test]
fn unsubscribe_sets_case_aside() {
    let mut db = Database::open(&Config::default()).unwrap();
    db.migrate().unwrap();
    let mut args = test_args();
    args.subreddit = "AnimalsBeingJerks".to_string();
    db.subscribe(1, &args).unwrap();
    db.subscribe(2, &args).unwrap();
    assert!(!db.unsubscribe(1, "animals").unwrap());
    assert!(db.unsubscribe(1, "animalsbeingjerks").unwrap());
    assert!(!db.unsubscribe(1, "animalsbeingjerks").unwrap());
    assert_eq!(db.get_subscriptions_for_chat(1).unwrap(), vec![]);
    assert_eq!(db.get_subscriptions_for_chat(2).unwrap().len(), 1);
}

#[test]
fn unsubscribe_takes_patterns() {
    let mut db = Database::open(&Config::default()).unwrap();
    db.migrate().unwrap();
    for name in ["a_b", "axb", "ab", "rust", "Rustlang"] {
        let mut args = test_args();
        args.subreddit = name.to_string();
        db.subscribe(1, &args).unwrap();
    }
    assert!(db.unsubscribe(1, "a_b").unwrap());
    let left: Vec<String> = db
        .get_subscriptions_for_chat(1)
        .unwrap()
        .into_iter()
        .map(|s| s.subreddit)
        .collect();
    assert_eq!(left, vec!["ab", "rust", "Rustlang"]);
    assert!(db.unsubscribe(1, "RUST%").unwrap());
    let left: Vec<String> = db
        .get_subscriptions_for_chat(1)
        .unwrap()
        .into_iter()
        .map(|s| s.subreddit)
        .collect();
    assert_eq!(left, vec!["ab"]);
}
