use tgreddit::config::Config;
use tgreddit::db::store::{Database, StoreError};
use tgreddit::dispatch::{handle_new_post, Delivery};
use tgreddit::poller::{
    check_new_posts_for_subscription, check_new_posts_for_subscription_at, check_post_newness,
    effective_params, matches_filter, FetchParams, PostAction,
};
use tgreddit::reddit::kinds::{PostType, TopPostsTimePeriod};
use tgreddit::reddit::types::Post;
use tgreddit::types::{Subscription, SubscriptionArgs};

fn post(id: &str, post_type: PostType) -> Post {
    Post {
        id: id.into(),
        created: 1654581100,
        subreddit: "pics".into(),
        title: "A title".into(),
        is_video: false,
        ups: 1,
        permalink: format!("/r/pics/comments/{id}/a_title/"),
        url: format!("https://i.redd.it/{id}.jpg"),
        post_hint: Some("image".into()),
        is_self: false,
        is_gallery: None,
        post_type,
        crosspost_parent_list: None,
        gallery_data: None,
        media_metadata: None,
    }
}

fn config(skip_initial_send: bool) -> Config {
    let mut config = Config::default();
    config.skip_initial_send = skip_initial_send;
    config
}

fn subscription(filter: Option<PostType>) -> Subscription {
    Subscription { chat_id: 42, subreddit: "pics".into(), limit: Some(1), time: None, filter }
}

fn store() -> Database {
    let mut db = Database::open(&Config::default()).unwrap();
    db.migrate().unwrap();
    db
}

#[test]
fn end_to_end_three_polls() {
    let config = config(true);
    let mut db = store();
    let args = SubscriptionArgs { subreddit: "pics".into(), limit: Some(1), time: None, filter: None };
    db.subscribe(42, &args).unwrap();
    let subs = db.get_all_subscriptions().unwrap();
    assert_eq!(subs.len(), 1);
    let sub = &subs[0];

    let first = vec![post("abc123", PostType::Image)];
    let deliveries = check_new_posts_for_subscription(&mut db, &config, sub, Some(&first)).unwrap();
    assert_eq!(deliveries, Vec::<usize>::new());
    assert!(db.is_post_seen(42, &first[0]).unwrap());

    let deliveries = check_new_posts_for_subscription(&mut db, &config, sub, Some(&first)).unwrap();
    assert_eq!(deliveries, Vec::<usize>::new());

    let third = vec![post("def456", PostType::Image)];
    assert!(!db.is_post_seen(42, &third[0]).unwrap());
    let deliveries = check_new_posts_for_subscription(&mut db, &config, sub, Some(&third)).unwrap();
    assert_eq!(deliveries, vec![0]);
    match handle_new_post(&config, &third[deliveries[0]]).unwrap() {
        Delivery::Image { url, .. } => assert_eq!(url, "https://i.redd.it/def456.jpg"),
        other => panic!("not an image delivery: {other:?}"),
    }
    assert!(db.is_post_seen(42, &third[0]).unwrap());
}

#[test]
fn first_poll_marks_everything_and_sends_nothing() {
    let config = config(true);
    let mut db = store();
    let sub = subscription(None);
    let listing = vec![
        post("a", PostType::Image),
        post("b", PostType::Link),
        post("c", PostType::Video),
    ];
    let deliveries = check_new_posts_for_subscription(&mut db, &config, &sub, Some(&listing)).unwrap();
    assert!(deliveries.is_empty());
    for p in &listing {
        assert!(db.is_post_seen(42, p).unwrap());
    }
    let second = vec![post("d", PostType::Image), post("a", PostType::Image)];
    let deliveries = check_new_posts_for_subscription(&mut db, &config, &sub, Some(&second)).unwrap();
    assert_eq!(deliveries, vec![0]);
}

#[test]
fn first_poll_sends_where_settings_say_so() {
    let config = config(false);
    let mut db = store();
    let sub = subscription(None);
    let listing = vec![post("a", PostType::Image), post("b", PostType::Link)];
    let deliveries = check_new_posts_for_subscription(&mut db, &config, &sub, Some(&listing)).unwrap();
    assert_eq!(deliveries, vec![0, 1]);
}

#[test]
fn filter_delivers_only_what_it_keeps() {
    let config = config(false);
    let mut db = store();
    let sub = subscription(Some(PostType::Image));
    let listing = vec![post("img", PostType::Image), post("lnk", PostType::Link)];
    let deliveries =
        check_new_posts_for_subscription_at(&mut db, &config, &sub, Some(&listing), 5).unwrap();
    assert_eq!(deliveries, vec![0]);
    assert!(db.is_post_seen(42, &listing[0]).unwrap());
    assert!(!db.is_post_seen(42, &listing[1]).unwrap());
}

#[test]
fn filter_of_the_settings_stands_in() {
    let mut config = config(false);
    config.default_filter = Some(PostType::Link);
    let mut db = store();
    let listing = vec![post("img", PostType::Image), post("lnk", PostType::Link)];
    let deliveries =
        check_new_posts_for_subscription(&mut db, &config, &subscription(None), Some(&listing))
            .unwrap();
    assert_eq!(deliveries, vec![1]);
    let deliveries = check_new_posts_for_subscription(
        &mut db,
        &config,
        &subscription(Some(PostType::Image)),
        Some(&listing),
    )
    .unwrap();
    assert_eq!(deliveries, vec![0]);
}

#[test]
fn a_post_is_never_delivered_twice() {
    let config = config(false);
    let mut db = store();
    let sub = subscription(None);
    let listing = vec![
        post("a", PostType::Image),
        post("a", PostType::Image),
        post("b", PostType::Image),
    ];
    let deliveries = check_new_posts_for_subscription(&mut db, &config, &sub, Some(&listing)).unwrap();
    assert_eq!(deliveries, vec![0, 2]);
    let deliveries = check_new_posts_for_subscription(&mut db, &config, &sub, Some(&listing)).unwrap();
    assert!(deliveries.is_empty());
    let other_chat = Subscription { chat_id: 7, ..subscription(None) };
    let deliveries =
        check_new_posts_for_subscription(&mut db, &config, &other_chat, Some(&listing)).unwrap();
    assert_eq!(deliveries, vec![0, 2]);
}

#[test]
fn failed_fetch_changes_nothing() {
    let config = config(true);
    let mut db = Database::open(&Config::default()).unwrap();
    let sub = subscription(None);
    let deliveries = check_new_posts_for_subscription(&mut db, &config, &sub, None).unwrap();
    assert!(deliveries.is_empty());
    let listing = vec![post("a", PostType::Image)];
    assert_eq!(
        check_new_posts_for_subscription(&mut db, &config, &sub, Some(&listing)),
        Err(StoreError::NoSuchTable)
    );
}

#[test]
fn check_post_newness_decides() {
    let mut db = store();
    let p = post("a", PostType::Image);
    assert_eq!(check_post_newness(&db, 1, None, &p, false), Ok(PostAction::Deliver));
    assert_eq!(check_post_newness(&db, 1, None, &p, true), Ok(PostAction::MarkSeen));
    assert_eq!(
        check_post_newness(&db, 1, Some(PostType::Link), &p, false),
        Ok(PostAction::Skip)
    );
    assert_eq!(
        check_post_newness(&db, 1, Some(PostType::Image), &p, false),
        Ok(PostAction::Deliver)
    );
    db.mark_post_seen(1, &p).unwrap();
    assert_eq!(check_post_newness(&db, 1, None, &p, false), Ok(PostAction::Skip));
    assert_eq!(check_post_newness(&db, 2, None, &p, false), Ok(PostAction::Deliver));
    let bare = Database::open(&Config::default()).unwrap();
    assert_eq!(
        check_post_newness(&bare, 1, None, &p, false),
        Err(StoreError::NoSuchTable)
    );
    assert_eq!(
        check_post_newness(&bare, 1, Some(PostType::Link), &p, false),
        Ok(PostAction::Skip)
    );
}

#[test]
fn effective_params_fall_back() {
    let mut config = Config::default();
    assert_eq!(
        effective_params(None, None, None, &config),
        FetchParams { limit: 1, time: TopPostsTimePeriod::Day, filter: None }
    );
    config.default_limit = Some(3);
    config.default_time = Some(TopPostsTimePeriod::Week);
    config.default_filter = Some(PostType::Video);
    assert_eq!(
        effective_params(None, None, None, &config),
        FetchParams { limit: 3, time: TopPostsTimePeriod::Week, filter: Some(PostType::Video) }
    );
    assert_eq!(
        effective_params(Some(9), Some(TopPostsTimePeriod::All), Some(PostType::Image), &config),
        FetchParams { limit: 9, time: TopPostsTimePeriod::All, filter: Some(PostType::Image) }
    );
}

#[test]
fn matches_filter_compares_types() {
    assert!(matches_filter(None, PostType::Unknown));
    assert!(matches_filter(Some(PostType::Image), PostType::Image));
    assert!(!matches_filter(Some(PostType::Image), PostType::Gallery));
}
