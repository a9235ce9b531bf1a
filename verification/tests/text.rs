use tgreddit::config::{default_skip_initial_send, default_time, Config, DEFAULT_LIMIT};
use tgreddit::reddit::kinds::TopPostsTimePeriod;
use tgreddit::text::{
    chars_of, concat_strs, is_like, is_same_letter, join_strings, parse_u32, push_decimal,
    replace, str_ends_with, str_eq, trimmed_end,
};

#[test]
fn chars_and_back() {
    assert_eq!(chars_of("añ😀"), vec!['a', 'ñ', '😀']);
    assert_eq!(chars_of(""), Vec::<char>::new());
    assert_eq!(concat_strs("ab", "cd"), "abcd");
}

#[test]
fn equality_and_suffixes() {
    assert!(str_eq("abc", "abc"));
    assert!(!str_eq("abc", "abd"));
    assert!(!str_eq("abc", "ab"));
    assert!(str_eq("", ""));
    assert!(str_ends_with("x.gifv", ".gifv"));
    assert!(str_ends_with("x.gifv", ""));
    assert!(!str_ends_with("gifv", ".gifv"));
    assert!(!str_ends_with("x.gifv ", ".gifv"));
}

#[test]
fn replace_all_occurrences() {
    assert_eq!(replace("/r/pics", "/r/", ""), "pics");
    assert_eq!(replace("r/r/r/pics", "r/", ""), "pics");
    assert_eq!(replace("aaa", "aa", "b"), "ba");
    assert_eq!(replace("a&amp;b&amp;", "&amp;", "&"), "a&b&");
    assert_eq!(replace("abc", "", "x"), "abc");
    assert_eq!(replace("", "a", "x"), "");
    assert_eq!(replace("abc", "abcd", "x"), "abc");
    assert_eq!(replace("ab", "b", "bb"), "abb");
}

#[test]
fn like_patterns() {
    assert!(is_like("test", "test"));
    assert!(is_like("TEST", "test"));
    assert!(is_like("t_st", "tEst"));
    assert!(!is_like("t_st", "tst"));
    assert!(is_like("%", ""));
    assert!(is_like("%", "anything"));
    assert!(is_like("a%b%c", "aXXbYYc"));
    assert!(!is_like("a%b%c", "aXXbYY"));
    assert!(is_like("%rust%", "learnRUSTnow"));
    assert!(!is_like("test", "tests"));
    assert!(!is_like("", "x"));
    assert!(is_like("", ""));
    assert!(!is_like("ä", "Ä"));
    assert!(is_same_letter('a', 'A'));
    assert!(is_same_letter('Z', 'z'));
    assert!(!is_same_letter('@', '`'));
    assert!(!is_same_letter('[', '{'));
}

#[test]
fn trimming() {
    assert_eq!(trimmed_end("abc  \t\n"), "abc");
    assert_eq!(trimmed_end("  abc"), "  abc");
    assert_eq!(trimmed_end("a b\u{a0}\u{3000}"), "a b");
    assert_eq!(trimmed_end("   "), "");
    assert_eq!(trimmed_end(""), "");
}

#[test]
fn joining() {
    let parts = vec!["a".to_string(), "".to_string(), "c".to_string()];
    assert_eq!(join_strings(&parts, ", "), "a, , c");
    assert_eq!(join_strings(&vec!["a".to_string()], ", "), "a");
    assert_eq!(join_strings(&vec![], ", "), "");
}

#[test]
fn numbers() {
    let mut s = String::from("n=");
    push_decimal(&mut s, 0);
    push_decimal(&mut s, 1234567890);
    push_decimal(&mut s, 4294967295);
    assert_eq!(s, "n=012345678904294967295");
    assert_eq!(parse_u32("0"), Some(0));
    assert_eq!(parse_u32("+17"), Some(17));
    assert_eq!(parse_u32("4294967295"), Some(4294967295));
    assert_eq!(parse_u32("4294967296"), None);
    assert_eq!(parse_u32("00000000000000000001"), Some(1));
    assert_eq!(parse_u32(""), None);
    assert_eq!(parse_u32("+"), None);
    assert_eq!(parse_u32("-1"), None);
    assert_eq!(parse_u32("1 "), None);
    assert_eq!(parse_u32("++1"), None);
    assert_eq!(parse_u32("٣"), None);
    for text in ["0", "+17", "4294967295", "4294967296", "", "+", "-1", "1 ", "++1", "٣", "12a"] {
        assert_eq!(parse_u32(text), text.parse::<u32>().ok());
    }
}

#[test]
fn settings() {
    assert!(default_skip_initial_send());
    assert_eq!(DEFAULT_LIMIT, 1);
    assert_eq!(default_time(), TopPostsTimePeriod::Day);
    let mut config = Config::default();
    assert!(!config.is_authorized(Some(7)));
    config.authorized_user_ids = vec![3, 7];
    assert!(config.is_authorized(Some(7)));
    assert!(config.is_authorized(Some(3)));
    assert!(!config.is_authorized(Some(8)));
    assert!(!config.is_authorized(None));
}
