use tgreddit::reddit::kinds::{PostType, TopPostsTimePeriod};
use tgreddit::reddit::types::{classify_with, has_video, third_party_clip, Post};

fn post(url: &str, post_hint: Option<&str>) -> Post {
    Post {
        id: "abc123".into(),
        created: 1654581100,
        subreddit: "pics".into(),
        title: "A title".into(),
        is_video: false,
        ups: 1,
        permalink: "/r/pics/comments/abc123/a_title/".into(),
        url: url.into(),
        post_hint: post_hint.map(|h| h.to_string()),
        is_self: false,
        is_gallery: None,
        post_type: PostType::Unknown,
        crosspost_parent_list: None,
        gallery_data: None,
        media_metadata: None,
    }
}

#[test]
fn third_party_clip_beats_link_hint() {
    let p = post("https://i.imgur.com/x.gifv", Some("link"));
    assert_eq!(p.classify(), PostType::Video);
}

#[test]
fn image_hint_is_image() {
    let p = post("https://i.redd.it/x.jpg", Some("image"));
    assert_eq!(p.classify(), PostType::Image);
}

#[test]
fn self_post_without_hint_is_self_text() {
    let mut p = post("https://www.reddit.com/r/pics/comments/abc123/a_title/", None);
    p.is_self = true;
    assert_eq!(p.classify(), PostType::SelfText);
}

#[test]
fn rich_video_hint_is_link() {
    let p = post("https://www.youtube.com/watch?v=x", Some("rich:video"));
    assert_eq!(p.classify(), PostType::Link);
    let p = post("https://example.com/", Some("link"));
    assert_eq!(p.classify(), PostType::Link);
}

#[test]
fn crosspost_of_a_video_is_video() {
    let mut parent = post("https://v.redd.it/xyz", None);
    parent.is_video = true;
    let parent = parent.reclassified();
    assert_eq!(parent.post_type, PostType::Video);
    let mut p = post("https://v.redd.it/xyz", Some("link"));
    p.crosspost_parent_list = Some(vec![parent]);
    assert_eq!(p.classify(), PostType::Video);
}

#[test]
fn crosspost_of_an_image_is_not_video() {
    let parent = post("https://i.redd.it/x.jpg", Some("image")).reclassified();
    let mut p = post("https://i.redd.it/x.jpg", Some("image"));
    p.crosspost_parent_list = Some(vec![parent]);
    assert_eq!(p.classify(), PostType::Image);
    p.crosspost_parent_list = Some(vec![]);
    assert_eq!(p.classify(), PostType::Image);
}

#[test]
fn native_video_is_video() {
    let mut p = post("https://v.redd.it/xyz", Some("hosted:video"));
    p.is_video = true;
    assert_eq!(p.classify(), PostType::Video);
}

#[test]
fn gfycat_is_video_whatever_the_path() {
    assert_eq!(post("https://gfycat.com/someclip", None).classify(), PostType::Video);
    assert_eq!(post("https://GFYCAT.com/", Some("image")).classify(), PostType::Video);
}

#[test]
fn imgur_without_gifv_is_no_video() {
    assert_eq!(post("https://i.imgur.com/x.gif", Some("image")).classify(), PostType::Image);
    assert_eq!(post("https://imgur.com/x.gifv", Some("link")).classify(), PostType::Link);
    assert_eq!(post("https://i.imgur.com/x.gifv?a=1", Some("link")).classify(), PostType::Video);
}

#[test]
fn gallery_and_unknown() {
    let mut p = post("https://www.reddit.com/gallery/abc123", None);
    p.is_gallery = Some(true);
    assert_eq!(p.classify(), PostType::Gallery);
    p.is_gallery = Some(false);
    assert_eq!(p.classify(), PostType::Unknown);
    p.is_gallery = None;
    assert_eq!(p.classify(), PostType::Unknown);
    p.is_self = true;
    p.is_gallery = Some(true);
    assert_eq!(p.classify(), PostType::SelfText);
}

#[test]
fn address_that_is_none_is_no_clip() {
    assert_eq!(post("not a url", Some("image")).classify(), PostType::Image);
    assert_eq!(post("mailto:someone@gfycat.com", None).classify(), PostType::Unknown);
}

#[test]
fn classification_is_repeatable() {
    let p = post("https://i.imgur.com/x.gifv", Some("link"));
    let first = p.classify();
    let second = p.classify();
    assert_eq!(first, second);
    let again = p.reclassified();
    assert_eq!(again.post_type, first);
    assert_eq!(again.classify(), first);
}

#[test]
fn cached_type_is_not_trusted() {
    let mut p = post("https://example.com/", Some("image"));
    p.post_type = PostType::Video;
    assert_eq!(p.classify(), PostType::Image);
    assert_eq!(p.reclassified().post_type, PostType::Image);
}

#[test]
fn classify_with_follows_the_order() {
    let image = Some("image".to_string());
    let link = Some("link".to_string());
    assert_eq!(classify_with(true, false, false, &image, true, Some(true)), PostType::Video);
    assert_eq!(classify_with(false, true, false, &image, true, Some(true)), PostType::Video);
    assert_eq!(classify_with(false, false, true, &image, true, Some(true)), PostType::Video);
    assert_eq!(classify_with(false, false, false, &image, true, Some(true)), PostType::Image);
    assert_eq!(classify_with(false, false, false, &link, true, Some(true)), PostType::Link);
    assert_eq!(classify_with(false, false, false, &None, true, Some(true)), PostType::SelfText);
    assert_eq!(classify_with(false, false, false, &None, false, Some(true)), PostType::Gallery);
    assert_eq!(classify_with(false, false, false, &None, false, None), PostType::Unknown);
    let other = Some("hosted:video".to_string());
    assert_eq!(classify_with(false, false, false, &other, false, None), PostType::Unknown);
}

#[test]
fn third_party_clip_by_host_and_path() {
    let imgur = Some("i.imgur.com".to_string());
    let gfycat = Some("gfycat.com".to_string());
    assert!(third_party_clip(&imgur, &Some("/x.gifv".to_string())));
    assert!(!third_party_clip(&imgur, &Some("/x.gifv/".to_string())));
    assert!(!third_party_clip(&imgur, &None));
    assert!(third_party_clip(&gfycat, &None));
    assert!(!third_party_clip(&None, &Some("/x.gifv".to_string())));
    assert!(!third_party_clip(&Some("example.com".to_string()), &Some("/x.gifv".to_string())));
}

#[test]
fn has_video_looks_at_every_parent() {
    let image = post("https://i.redd.it/x.jpg", Some("image")).reclassified();
    let mut video = post("https://v.redd.it/xyz", None);
    video.is_video = true;
    let video = video.reclassified();
    assert!(has_video(&vec![image, video]));
    assert!(!has_video(&vec![]));
}

#[test]
fn names_of_types_and_windows() {
    for t in [
        PostType::Image,
        PostType::Video,
        PostType::Link,
        PostType::SelfText,
        PostType::Gallery,
        PostType::Unknown,
    ] {
        assert_eq!(PostType::parse(t.as_str()), Some(t));
        assert_eq!(t.to_string(), t.as_str());
    }
    for t in [
        TopPostsTimePeriod::Hour,
        TopPostsTimePeriod::Day,
        TopPostsTimePeriod::Week,
        TopPostsTimePeriod::Month,
        TopPostsTimePeriod::Year,
        TopPostsTimePeriod::All,
    ] {
        assert_eq!(TopPostsTimePeriod::parse(t.as_str()), Some(t));
        assert_eq!(t.to_string(), t.as_str());
    }
    assert_eq!(PostType::SelfText.as_str(), "self_text");
    assert_eq!(TopPostsTimePeriod::Week.as_str(), "week");
    assert_eq!(PostType::parse("Video"), None);
    assert_eq!(PostType::parse("selftext"), None);
    assert_eq!(TopPostsTimePeriod::parse(""), None);
    assert_eq!(TopPostsTimePeriod::parse("weeks"), None);
}
