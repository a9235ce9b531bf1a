use tgreddit::seen_posts_cache::{SeenPostsCache, REMEMBERED_POSTS_COUNT};

#[test]
fn new_cache_knows_nothing() {
    let cache = SeenPostsCache::new();
    assert!(cache.is_uninitialized(1, "pics"));
    assert!(!cache.is_seen_post(1, "pics", "abc123"));
}

#[test]
fn marked_post_is_seen() {
    let mut cache = SeenPostsCache::new();
    cache.mark_seen(1, "pics", "abc123");
    assert!(cache.is_seen_post(1, "pics", "abc123"));
    assert!(!cache.is_uninitialized(1, "pics"));
    assert!(!cache.is_seen_post(1, "pics", "def456"));
    assert!(!cache.is_seen_post(2, "pics", "abc123"));
    assert!(!cache.is_seen_post(1, "cats", "abc123"));
    assert!(cache.is_uninitialized(2, "pics"));
    assert!(cache.is_uninitialized(1, "cats"));
    assert!(cache.is_uninitialized(1, "Pics"));
}

#[test]
fn the_window_holds_ten_posts() {
    assert_eq!(REMEMBERED_POSTS_COUNT, 10);
    let mut cache = SeenPostsCache::new();
    for i in 0..10 {
        cache.mark_seen(1, "pics", &format!("post{i}"));
    }
    for i in 0..10 {
        assert!(cache.is_seen_post(1, "pics", &format!("post{i}")));
    }
    cache.mark_seen(1, "pics", "post10");
    assert!(!cache.is_seen_post(1, "pics", "post0"));
    for i in 1..11 {
        assert!(cache.is_seen_post(1, "pics", &format!("post{i}")));
    }
}

#[test]
fn marking_again_moves_to_the_front() {
    let mut cache = SeenPostsCache::new();
    for i in 0..10 {
        cache.mark_seen(1, "pics", &format!("post{i}"));
    }
    cache.mark_seen(1, "pics", "post0");
    cache.mark_seen(1, "pics", "post10");
    assert!(cache.is_seen_post(1, "pics", "post0"));
    assert!(!cache.is_seen_post(1, "pics", "post1"));
    assert!(cache.is_seen_post(1, "pics", "post2"));
    assert!(cache.is_seen_post(1, "pics", "post10"));
}

#[test]
fn asking_does_not_move_a_post() {
    let mut cache = SeenPostsCache::new();
    for i in 0..10 {
        cache.mark_seen(1, "pics", &format!("post{i}"));
    }
    assert!(cache.is_seen_post(1, "pics", "post0"));
    cache.mark_seen(1, "pics", "post10");
    assert!(!cache.is_seen_post(1, "pics", "post0"));
}

#[test]
fn windows_are_apart() {
    let mut cache = SeenPostsCache::new();
    cache.mark_seen(1, "pics", "first");
    for i in 0..20 {
        cache.mark_seen(1, "cats", &format!("post{i}"));
        cache.mark_seen(2, "pics", &format!("post{i}"));
    }
    assert!(cache.is_seen_post(1, "pics", "first"));
    assert!(!cache.is_seen_post(1, "cats", "post9"));
    assert!(cache.is_seen_post(1, "cats", "post10"));
    assert!(cache.is_seen_post(2, "pics", "post19"));
}
