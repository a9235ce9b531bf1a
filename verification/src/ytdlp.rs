//! The video downloader: how it is called, and what its output file tells.

use crate::pattern::{group_of_first, regex_group};
use crate::text::{opt_as_str, opt_view, parse_u32, parsed_u32, string_views};
use crate::types::Video;
use vstd::prelude::*;

verus! {

/// The name under which the downloader writes the video: it holds the
/// video's width and height, which the messaging platform needs.
pub const OUTPUT_TEMPLATE: &'static str = "video_%(width)sx%(height)s.%(ext)s";

/// The width and the height in a file name: `_`, digits, `x`, digits, `.`.
pub const DIMENSIONS_PATTERN: &'static str = r"_(?P<width>\d+)x(?P<height>\d+)\.";

/// The arguments of the downloader for a directory and an address.
pub open spec fn ytdlp_args(output: Seq<char>, url: Seq<char>) -> Seq<Seq<char>> {
    seq!["--paths"@, output, "--output"@, OUTPUT_TEMPLATE@, url]
}

pub fn make_ytdlp_args(output: &str, url: &str) -> (r: Vec<String>)
    ensures
        string_views(r@) == ytdlp_args(output@, url@),
{
    let mut args: Vec<String> = Vec::new();
    args.push(String::from_str("--paths"));
    args.push(String::from_str(output));
    args.push(String::from_str("--output"));
    args.push(String::from_str(OUTPUT_TEMPLATE));
    args.push(String::from_str(url));
    assert(string_views(args@) =~= ytdlp_args(output@, url@));
    args
}

/// The number that a text stands for, where 16 bits hold it.
pub open spec fn parsed_u16(s: Seq<char>) -> Option<u16> {
    match parsed_u32(s) {
        Some(n) => if n <= u16::MAX {
            Some(n as u16)
        } else {
            None
        },
        None => None,
    }
}

/// The size that the two numbers of a file name give: none where one of them
/// is missing or 16 bits do not hold it.
pub open spec fn dimensions_from(width: Option<Seq<char>>, height: Option<Seq<char>>) -> Option<
    (u16, u16),
> {
    if width is Some && height is Some && parsed_u16(width->0) is Some && parsed_u16(height->0)
        is Some {
        Some((parsed_u16(width->0)->0, parsed_u16(height->0)->0))
    } else {
        None
    }
}

/// The size that the name of a file tells.
pub open spec fn dimensions_of(path: Seq<char>) -> Option<(u16, u16)> {
    dimensions_from(
        regex_group(DIMENSIONS_PATTERN@, path, 1),
        regex_group(DIMENSIONS_PATTERN@, path, 2),
    )
}

fn parse_u16(s: &str) -> (r: Option<u16>)
    ensures
        r == parsed_u16(s@),
{
    match parse_u32(s) {
        Some(n) => if n <= 0xffff {
            Some(n as u16)
        } else {
            None
        },
        None => None,
    }
}

/// Reads a size from the two numbers found in a file name.
pub fn dimensions_from_groups(width: Option<&str>, height: Option<&str>) -> (r: Option<(u16, u16)>)
    ensures
        r == dimensions_from(opt_view(width), opt_view(height)),
{
    let width = match width {
        Some(w) => parse_u16(w),
        None => None,
    };
    let height = match height {
        Some(h) => parse_u16(h),
        None => None,
    };
    match (width, height) {
        (Some(w), Some(h)) => Some((w, h)),
        _ => None,
    }
}

/// Reads the size of a video from the name of its file.
pub fn parse_dimensions_from_path(path: &str) -> (r: Option<(u16, u16)>)
    ensures
        r == dimensions_of(path@),
{
    let width = group_of_first(DIMENSIONS_PATTERN, path, 1);
    let height = group_of_first(DIMENSIONS_PATTERN, path, 2);
    dimensions_from_groups(opt_as_str(&width), opt_as_str(&height))
}

/// The video that the downloader wrote to `path`, or `None` where the name of
/// the file does not tell its size.
pub fn video_at(path: String) -> (r: Option<Video>)
    ensures
        r is Some == dimensions_of(path@) is Some,
        r matches Some(video) ==> video.path@ == path@ && (video.width, video.height)
            == dimensions_of(path@)->0,
{
    match parse_dimensions_from_path(path.as_str()) {
        Some((width, height)) => Some(Video { path, width, height }),
        None => None,
    }
}

} // verus!
