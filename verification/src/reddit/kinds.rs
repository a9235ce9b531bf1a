//! The two closed vocabularies of the content source: post types and ranking windows.

use crate::text::str_eq;
use vstd::prelude::*;

verus! {

/// The media shape of a post, as the classifier decides it.
#[derive(Debug, Clone, Copy, PartialEq, Eq, Hash, Structural)]
pub enum PostType {
    Image,
    Video,
    Link,
    SelfText,
    Gallery,
    Unknown,
}

/// The ranking window of a top listing.
#[derive(Debug, Clone, Copy, PartialEq, Eq, Hash, Structural)]
pub enum TopPostsTimePeriod {
    Hour,
    Day,
    Week,
    Month,
    Year,
    All,
}

impl PostType {
    /// The snake-case name under which the type is stored and typed by users.
    pub open spec fn name(self) -> Seq<char> {
        match self {
            PostType::Image => "image"@,
            PostType::Video => "video"@,
            PostType::Link => "link"@,
            PostType::SelfText => "self_text"@,
            PostType::Gallery => "gallery"@,
            PostType::Unknown => "unknown"@,
        }
    }

    /// The type that a name stands for, if it is one of the six names.
    pub open spec fn named(s: Seq<char>) -> Option<PostType> {
        if s == "image"@ {
            Some(PostType::Image)
        } else if s == "video"@ {
            Some(PostType::Video)
        } else if s == "link"@ {
            Some(PostType::Link)
        } else if s == "self_text"@ {
            Some(PostType::SelfText)
        } else if s == "gallery"@ {
            Some(PostType::Gallery)
        } else if s == "unknown"@ {
            Some(PostType::Unknown)
        } else {
            None
        }
    }

    pub fn as_str(&self) -> (s: &'static str)
        ensures
            s@ == self.name(),
    {
        match self {
            PostType::Image => "image",
            PostType::Video => "video",
            PostType::Link => "link",
            PostType::SelfText => "self_text",
            PostType::Gallery => "gallery",
            PostType::Unknown => "unknown",
        }
    }

    pub fn to_string(&self) -> (s: String)
        ensures
            s@ == self.name(),
    {
        String::from_str(self.as_str())
    }

    /// Reads a type from its exact name; any other text gives `None`.
    pub fn parse(s: &str) -> (r: Option<PostType>)
        ensures
            r == PostType::named(s@),
    {
        if str_eq(s, "image") {
            Some(PostType::Image)
        } else if str_eq(s, "video") {
            Some(PostType::Video)
        } else if str_eq(s, "link") {
            Some(PostType::Link)
        } else if str_eq(s, "self_text") {
            Some(PostType::SelfText)
        } else if str_eq(s, "gallery") {
            Some(PostType::Gallery)
        } else if str_eq(s, "unknown") {
            Some(PostType::Unknown)
        } else {
            None
        }
    }

    /// Every type is read back from its own name.
    pub proof fn lemma_named_name(t: PostType)
        ensures
            PostType::named(t.name()) == Some(t),
    {
        reveal_strlit("image");
        reveal_strlit("video");
        reveal_strlit("link");
        reveal_strlit("self_text");
        reveal_strlit("gallery");
        reveal_strlit("unknown");
        assert("image"@[0] == 'i' && "video"@[0] == 'v' && "link"@[0] == 'l' && "self_text"@[0]
            == 's' && "gallery"@[0] == 'g' && "unknown"@[0] == 'u');
    }
}

impl TopPostsTimePeriod {
    /// The lower-case name under which the window is stored, typed by users and
    /// sent to the content source.
    pub open spec fn name(self) -> Seq<char> {
        match self {
            TopPostsTimePeriod::Hour => "hour"@,
            TopPostsTimePeriod::Day => "day"@,
            TopPostsTimePeriod::Week => "week"@,
            TopPostsTimePeriod::Month => "month"@,
            TopPostsTimePeriod::Year => "year"@,
            TopPostsTimePeriod::All => "all"@,
        }
    }

    /// The window that a name stands for, if it is one of the six names.
    pub open spec fn named(s: Seq<char>) -> Option<TopPostsTimePeriod> {
        if s == "hour"@ {
            Some(TopPostsTimePeriod::Hour)
        } else if s == "day"@ {
            Some(TopPostsTimePeriod::Day)
        } else if s == "week"@ {
            Some(TopPostsTimePeriod::Week)
        } else if s == "month"@ {
            Some(TopPostsTimePeriod::Month)
        } else if s == "year"@ {
            Some(TopPostsTimePeriod::Year)
        } else if s == "all"@ {
            Some(TopPostsTimePeriod::All)
        } else {
            None
        }
    }

    pub fn as_str(&self) -> (s: &'static str)
        ensures
            s@ == self.name(),
    {
        match self {
            TopPostsTimePeriod::Hour => "hour",
            TopPostsTimePeriod::Day => "day",
            TopPostsTimePeriod::Week => "week",
            TopPostsTimePeriod::Month => "month",
            TopPostsTimePeriod::Year => "year",
            TopPostsTimePeriod::All => "all",
        }
    }

    pub fn to_string(&self) -> (s: String)
        ensures
            s@ == self.name(),
    {
        String::from_str(self.as_str())
    }

    /// Reads a window from its exact name; any other text gives `None`.
    pub fn parse(s: &str) -> (r: Option<TopPostsTimePeriod>)
        ensures
            r == TopPostsTimePeriod::named(s@),
    {
        if str_eq(s, "hour") {
            Some(TopPostsTimePeriod::Hour)
        } else if str_eq(s, "day") {
            Some(TopPostsTimePeriod::Day)
        } else if str_eq(s, "week") {
            Some(TopPostsTimePeriod::Week)
        } else if str_eq(s, "month") {
            Some(TopPostsTimePeriod::Month)
        } else if str_eq(s, "year") {
            Some(TopPostsTimePeriod::Year)
        } else if str_eq(s, "all") {
            Some(TopPostsTimePeriod::All)
        } else {
            None
        }
    }

    /// Every window is read back from its own name.
    pub proof fn lemma_named_name(t: TopPostsTimePeriod)
        ensures
            TopPostsTimePeriod::named(t.name()) == Some(t),
    {
        reveal_strlit("hour");
        reveal_strlit("day");
        reveal_strlit("week");
        reveal_strlit("month");
        reveal_strlit("year");
        reveal_strlit("all");
        assert("hour"@[0] == 'h' && "day"@[0] == 'd' && "week"@[0] == 'w' && "month"@[0] == 'm'
            && "year"@[0] == 'y' && "all"@[0] == 'a');
    }
}

} // verus!
