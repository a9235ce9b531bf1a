use tgreddit::download::{download_file_name, named_or_error, DownloadError};
use tgreddit::ytdlp::{
    dimensions_from_groups, make_ytdlp_args, parse_dimensions_from_path, video_at,
};

#[test]
fn test_parse_dimensions_from_path() {
    assert_eq!(
        parse_dimensions_from_path("/foo/bar/video_1920x1080.mp4"),
        Some((1920, 1080))
    );

    assert_eq!(
        parse_dimensions_from_path("/foo/bar/video_asdfax1080.mp4"),
        None,
    );
}

#[test]
fn dimensions_that_do_not_fit() {
    assert_eq!(parse_dimensions_from_path("video_65535x1.mp4"), Some((65535, 1)));
    assert_eq!(parse_dimensions_from_path("video_65536x1.mp4"), None);
    assert_eq!(parse_dimensions_from_path("video_1x99999999999.mp4"), None);
    assert_eq!(parse_dimensions_from_path("video_1x2"), None);
    assert_eq!(parse_dimensions_from_path("a_1x2.b_30x40.c"), Some((1, 2)));
}

#[test]
fn dimensions_from_groups_needs_both() {
    assert_eq!(dimensions_from_groups(Some("640"), Some("480")), Some((640, 480)));
    assert_eq!(dimensions_from_groups(Some("640"), None), None);
    assert_eq!(dimensions_from_groups(None, Some("480")), None);
    assert_eq!(dimensions_from_groups(Some(""), Some("480")), None);
    assert_eq!(dimensions_from_groups(Some("6x"), Some("480")), None);
    assert_eq!(dimensions_from_groups(Some("+6"), Some("007")), Some((6, 7)));
}

#[test]
fn ytdlp_arguments() {
    assert_eq!(
        make_ytdlp_args("/tmp/tgreddit.abc", "https://v.redd.it/xyz"),
        vec![
            "--paths",
            "/tmp/tgreddit.abc",
            "--output",
            "video_%(width)sx%(height)s.%(ext)s",
            "https://v.redd.it/xyz",
        ]
    );
}

#[test]
fn video_from_its_file() {
    let video = video_at("/tmp/x/video_320x240.webm".to_string()).unwrap();
    assert_eq!(video.path, "/tmp/x/video_320x240.webm");
    assert_eq!((video.width, video.height), (320, 240));
    assert!(video_at("/tmp/x/video.webm".to_string()).is_none());
}

#[test]
fn download_file_names() {
    assert_eq!(
        download_file_name("https://i.redd.it/abc.jpg?width=1&s=2").unwrap(),
        "abc.jpg"
    );
    assert_eq!(download_file_name("https://example.com/a/b/").unwrap(), "b");
    assert_eq!(download_file_name("https://example.com"), Err(DownloadError::NoFileName));
    assert_eq!(download_file_name("https://example.com/a/.."), Err(DownloadError::NoFileName));
    assert_eq!(download_file_name("no address"), Err(DownloadError::BadUrl));
    assert_eq!(named_or_error(None), Err(DownloadError::NoFileName));
    assert_eq!(named_or_error(Some("x".to_string())), Ok("x".to_string()));
}
