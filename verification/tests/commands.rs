use tgreddit::bot::{
    command_request, fetched_about, fetched_posts, handle_command, handle_command_at, select_posts,
    Command, CommandOutcome, Fetched, Request,
};
use tgreddit::config::Config;
use tgreddit::db::store::Database;
use tgreddit::reddit::api::SubredditAboutError;
use tgreddit::reddit::kinds::{PostType, TopPostsTimePeriod};
use tgreddit::reddit::types::{Post, SubredditAbout};
use tgreddit::types::{Subscription, SubscriptionArgs};

fn post(id: &str, post_type: PostType) -> Post {
    Post {
        id: id.into(),
        created: 0,
        subreddit: "pics".into(),
        title: "t".into(),
        is_video: false,
        ups: 0,
        permalink: format!("/r/pics/comments/{id}/t/"),
        url: "https://example.com/".into(),
        post_hint: None,
        is_self: false,
        is_gallery: None,
        post_type,
        crosspost_parent_list: None,
        gallery_data: None,
        media_metadata: None,
    }
}

fn args(subreddit: &str) -> SubscriptionArgs {
    SubscriptionArgs {
        subreddit: subreddit.into(),
        limit: Some(2),
        time: Some(TopPostsTimePeriod::Week),
        filter: None,
    }
}

fn about(name: &str) -> Fetched {
    Fetched::About(SubredditAbout {
        display_name: name.into(),
        display_name_prefixed: format!("r/{name}"),
    })
}

fn store() -> Database {
    let mut db = Database::open(&Config::default()).unwrap();
    db.migrate().unwrap();
    db
}

fn reply(outcome: CommandOutcome) -> String {
    match outcome {
        CommandOutcome::Reply(text) => text,
        other => panic!("{other:?}"),
    }
}

#[test]
fn requests_of_commands() {
    let mut config = Config::default();
    config.default_limit = Some(5);
    assert!(matches!(command_request(&Command::Help, &config), Request::Nothing));
    assert!(matches!(command_request(&Command::ListSubs, &config), Request::Nothing));
    assert!(matches!(
        command_request(&Command::Unsub("pics".into()), &config),
        Request::Nothing
    ));
    match command_request(&Command::Sub(args("pics")), &config) {
        Request::About { subreddit } => assert_eq!(subreddit, "pics"),
        other => panic!("{other:?}"),
    }
    match command_request(&Command::Get(args("pics")), &config) {
        Request::TopPosts { subreddit, limit, time } => {
            assert_eq!(subreddit, "pics");
            assert_eq!(limit, 2);
            assert_eq!(time, TopPostsTimePeriod::Week);
        }
        other => panic!("{other:?}"),
    }
    let bare = SubscriptionArgs { subreddit: "x".into(), limit: None, time: None, filter: None };
    match command_request(&Command::Get(bare), &config) {
        Request::TopPosts { limit, time, .. } => {
            assert_eq!(limit, 5);
            assert_eq!(time, TopPostsTimePeriod::Day);
        }
        other => panic!("{other:?}"),
    }
}

#[test]
fn help() {
    let mut db = store();
    assert!(matches!(
        handle_command(&mut db, &Config::default(), 1, &Command::Help, &Fetched::Nothing),
        CommandOutcome::Help
    ));
}

#[test]
fn subscribe_under_the_name_of_the_source() {
    let mut db = store();
    let config = Config::default();
    let outcome =
        handle_command(&mut db, &config, 1, &Command::Sub(args("PICS")), &about("pics"));
    assert_eq!(reply(outcome), "Subscribed to r/pics");
    assert_eq!(
        db.get_subscriptions_for_chat(1).unwrap(),
        vec![Subscription {
            chat_id: 1,
            subreddit: "pics".into(),
            limit: Some(2),
            time: Some(TopPostsTimePeriod::Week),
            filter: None,
        }]
    );
    let outcome =
        handle_command_at(&mut db, &config, 1, &Command::Sub(args("pics")), &about("pics"), 9);
    assert_eq!(reply(outcome), "Something went wrong");
    assert_eq!(db.get_subscriptions_for_chat(1).unwrap().len(), 1);
}

#[test]
fn subscribe_to_what_is_not_there() {
    let mut db = store();
    let config = Config::default();
    let outcome = handle_command(
        &mut db,
        &config,
        1,
        &Command::Sub(args("nope")),
        &Fetched::NoSuchSubreddit,
    );
    assert_eq!(reply(outcome), "No such subreddit");
    let outcome =
        handle_command(&mut db, &config, 1, &Command::Sub(args("nope")), &Fetched::Failed);
    assert_eq!(reply(outcome), "Something went wrong");
    let outcome =
        handle_command(&mut db, &config, 1, &Command::Sub(args("nope")), &Fetched::Nothing);
    assert_eq!(reply(outcome), "Something went wrong");
    assert!(db.get_all_subscriptions().unwrap().is_empty());
}

#[test]
fn unsubscribe() {
    let mut db = store();
    let config = Config::default();
    db.subscribe(1, &args("pics")).unwrap();
    let outcome =
        handle_command(&mut db, &config, 1, &Command::Unsub("r/PICS".into()), &Fetched::Nothing);
    assert_eq!(reply(outcome), "Unsubscribed from r/true");
    assert!(db.get_all_subscriptions().unwrap().is_empty());
    let outcome =
        handle_command(&mut db, &config, 1, &Command::Unsub("r/PICS".into()), &Fetched::Nothing);
    assert_eq!(reply(outcome), "Unsubscribed from r/false");
    let mut bare = Database::open(&Config::default()).unwrap();
    let outcome =
        handle_command(&mut bare, &config, 1, &Command::Unsub("r/pics".into()), &Fetched::Nothing);
    assert_eq!(reply(outcome), "Error: Not subscribed to r/pics");
}

#[test]
fn list_subscriptions() {
    let mut db = store();
    let config = Config::default();
    let outcome = handle_command(&mut db, &config, 1, &Command::ListSubs, &Fetched::Nothing);
    assert_eq!(reply(outcome), "No subscriptions");
    db.subscribe(1, &args("pics")).unwrap();
    db.subscribe(2, &args("cats")).unwrap();
    db.subscribe(1, &args("rust")).unwrap();
    let outcome = handle_command(&mut db, &config, 1, &Command::ListSubs, &Fetched::Nothing);
    assert_eq!(reply(outcome), "pics (time=week, limit=2)\nrust (time=week, limit=2)");
    let mut bare = Database::open(&Config::default()).unwrap();
    let outcome = handle_command(&mut bare, &config, 1, &Command::ListSubs, &Fetched::Nothing);
    assert_eq!(reply(outcome), "Something went wrong");
}

#[test]
fn get_posts() {
    let mut db = store();
    let mut config = Config::default();
    let posts = || {
        Fetched::Posts(vec![
            post("a", PostType::Image),
            post("b", PostType::Link),
            post("c", PostType::Image),
        ])
    };
    let mut wanted = args("pics");
    match handle_command(&mut db, &config, 1, &Command::Get(wanted.clone()), &posts()) {
        CommandOutcome::Deliver(at) => assert_eq!(at, vec![0, 1, 2]),
        other => panic!("{other:?}"),
    }
    wanted.filter = Some(PostType::Image);
    match handle_command(&mut db, &config, 1, &Command::Get(wanted.clone()), &posts()) {
        CommandOutcome::Deliver(at) => assert_eq!(at, vec![0, 2]),
        other => panic!("{other:?}"),
    }
    wanted.filter = Some(PostType::Video);
    let outcome = handle_command(&mut db, &config, 1, &Command::Get(wanted.clone()), &posts());
    assert_eq!(reply(outcome), "No posts found");
    wanted.filter = None;
    config.default_filter = Some(PostType::Link);
    match handle_command(&mut db, &config, 1, &Command::Get(wanted.clone()), &posts()) {
        CommandOutcome::Deliver(at) => assert_eq!(at, vec![1]),
        other => panic!("{other:?}"),
    }
    let outcome =
        handle_command(&mut db, &config, 1, &Command::Get(wanted.clone()), &Fetched::Failed);
    assert_eq!(reply(outcome), "Something went wrong");
    let outcome = handle_command(
        &mut db,
        &config,
        1,
        &Command::Get(wanted),
        &Fetched::Posts(vec![]),
    );
    assert_eq!(reply(outcome), "No posts found");
    for p in [post("a", PostType::Image), post("b", PostType::Link)] {
        assert!(!db.is_post_seen(1, &p).unwrap());
    }
}

#[test]
fn select_posts_by_type() {
    let posts = vec![post("a", PostType::Image), post("b", PostType::Link)];
    assert_eq!(select_posts(&posts, None), vec![0, 1]);
    assert_eq!(select_posts(&posts, Some(PostType::Link)), vec![1]);
    assert_eq!(select_posts(&posts, Some(PostType::Gallery)), Vec::<usize>::new());
}

#[test]
fn answers_of_the_source() {
    let found = fetched_about(Ok(SubredditAbout {
        display_name: "pics".into(),
        display_name_prefixed: "r/pics".into(),
    }));
    assert!(matches!(found, Fetched::About(_)));
    assert!(matches!(
        fetched_about(Err(SubredditAboutError::NoSuchSubreddit)),
        Fetched::NoSuchSubreddit
    ));
    assert!(matches!(fetched_about(Err(SubredditAboutError::Decode)), Fetched::Failed));
    assert!(matches!(fetched_posts(None), Fetched::Failed));
    assert!(matches!(fetched_posts(Some(vec![])), Fetched::Posts(_)));
}
