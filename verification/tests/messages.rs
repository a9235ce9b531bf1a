use tgreddit::messages::{escape, format_html_anchor, format_subscription, format_subscription_list};
use tgreddit::reddit::kinds::{PostType, TopPostsTimePeriod};
use tgreddit::types::Subscription;

#[test]
fn test_format_html_anchor() {
    assert_eq!(
        format_html_anchor("https://example.com", "<hello></world>"),
        r#"<a href="https://example.com">&lt;hello&gt;&lt;/world&gt;</a>"#
    )
}

#[test]
fn test_format_subscription_list() {
    assert_eq!(
        format_subscription_list(&[
            Subscription {
                chat_id: 1,
                subreddit: "foo".to_owned(),
                limit: None,
                time: None,
                filter: None,
            },
            Subscription {
                chat_id: 1,
                subreddit: "bar".to_owned(),
                limit: Some(1),
                time: Some(TopPostsTimePeriod::Week),
                filter: None,
            },
        ]),
        "foo\nbar (time=week, limit=1)"
    )
}

#[test]
fn format_subscription_list_of_nothing() {
    assert_eq!(format_subscription_list(&[]), "No subscriptions");
}

#[test]
fn format_subscription_with_every_override() {
    let sub = Subscription {
        chat_id: 7,
        subreddit: "pics".to_owned(),
        limit: Some(4294967295),
        time: Some(TopPostsTimePeriod::All),
        filter: Some(PostType::SelfText),
    };
    assert_eq!(
        format_subscription(&sub),
        "pics (time=all, limit=4294967295, filter=self_text)"
    );
}

#[test]
fn format_subscription_trims_the_end() {
    let sub = Subscription {
        chat_id: 7,
        subreddit: "pics \t".to_owned(),
        limit: None,
        time: None,
        filter: None,
    };
    assert_eq!(format_subscription(&sub), "pics");
}

#[test]
fn escape_leaves_other_characters() {
    assert_eq!(escape("a & b \"c\" <d>"), "a & b \"c\" &lt;d&gt;");
    assert_eq!(escape(""), "");
}
