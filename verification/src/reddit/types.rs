//! The data that the content source returns, and the classifier of posts.

use crate::reddit::kinds::PostType;
use crate::reddit::urls::{host_of, path_of, url_host, url_path};
use crate::text::{ends_with, str_ends_with, str_eq};
use vstd::prelude::*;

verus! {

/// One entry of a gallery's declared order.
#[derive(Debug, Clone)]
pub struct GalleryDataItem {
    pub caption: Option<String>,
    pub media_id: String,
    pub id: u32,
}

/// The declared order of a gallery's media.
#[derive(Debug, Clone)]
pub struct GalleryData {
    pub items: Vec<GalleryDataItem>,
}

/// One rendition of a medium: its size and where it is served.
#[derive(Debug, Clone)]
pub struct Media {
    pub x: u16,
    pub y: u16,
    pub url: String,
}

/// What the source says of one medium of a gallery.
#[derive(Debug, Clone)]
pub struct MediaMetadata {
    pub status: String,
    pub e: String,
    pub mime: String,
    pub s: Media,
}

/// A medium of a gallery under its id.
#[derive(Debug, Clone)]
pub struct MediaEntry {
    pub media_id: String,
    pub metadata: MediaMetadata,
}

/// A fetched post. `post_type` is derived from the other fields.
#[derive(Debug)]
pub struct Post {
    pub id: String,
    /// Creation time, in whole seconds since the epoch.
    pub created: u64,
    pub subreddit: String,
    pub title: String,
    pub is_video: bool,
    pub ups: u32,
    pub permalink: String,
    pub url: String,
    pub post_hint: Option<String>,
    pub is_self: bool,
    pub is_gallery: Option<bool>,
    pub post_type: PostType,
    pub crosspost_parent_list: Option<Vec<Post>>,
    pub gallery_data: Option<GalleryData>,
    pub media_metadata: Option<Vec<MediaEntry>>,
}

/// The answer to a question about a subreddit.
#[derive(Debug, Clone)]
pub struct SubredditAbout {
    pub display_name: String,
    pub display_name_prefixed: String,
}

#[derive(Debug, Clone)]
pub struct SubredditAboutResponse {
    pub data: SubredditAbout,
}

#[derive(Debug)]
pub struct ListingItem {
    pub data: Post,
}

#[derive(Debug)]
pub struct ListingResponseData {
    pub children: Vec<ListingItem>,
}

#[derive(Debug)]
pub struct ListingResponse {
    pub data: ListingResponseData,
}

/// Whether an address with this host and path serves a clip that can be
/// downloaded directly: a `.gifv` path on `i.imgur.com`, or anything on
/// `gfycat.com`. An address without a host serves none.
pub open spec fn is_third_party_clip(host: Option<Seq<char>>, path: Option<Seq<char>>) -> bool {
    match host {
        Some(h) => {
            ||| (h == "i.imgur.com"@ && path is Some && ends_with(path->0, ".gifv"@))
            ||| h == "gfycat.com"@
        },
        None => false,
    }
}

/// The decision order of the classifier; the first rule that matches wins.
pub open spec fn classified(
    is_video: bool,
    parent_is_video: bool,
    third_party_clip: bool,
    post_hint: Option<Seq<char>>,
    is_self: bool,
    is_gallery: Option<bool>,
) -> PostType {
    if is_video || parent_is_video || third_party_clip {
        PostType::Video
    } else if post_hint == Some("image"@) {
        PostType::Image
    } else if post_hint == Some("link"@) || post_hint == Some("rich:video"@) {
        PostType::Link
    } else if is_self {
        PostType::SelfText
    } else if is_gallery == Some(true) {
        PostType::Gallery
    } else {
        PostType::Unknown
    }
}

/// Whether one of the posts is of type video.
pub open spec fn any_video(parents: Seq<Post>) -> bool {
    exists|i: int| 0 <= i < parents.len() && (#[trigger] parents[i]).post_type == PostType::Video
}

/// Whether one of the posts is of type video.
pub fn has_video(parents: &Vec<Post>) -> (r: bool)
    ensures
        r == any_video(parents@),
{
    let mut i: usize = 0;
    while i < parents.len()
        invariant
            i <= parents.len(),
            forall|j: int| 0 <= j < i ==> (#[trigger] parents@[j]).post_type != PostType::Video,
        decreases parents.len() - i,
    {
        if parents[i].post_type == PostType::Video {
            return true;
        }
        i += 1;
    }
    false
}

/// Decides whether host and path are those of a directly served clip.
pub fn third_party_clip(host: &Option<String>, path: &Option<String>) -> (r: bool)
    ensures
        r == is_third_party_clip(
            match host {
                Some(h) => Some(h@),
                None => None,
            },
            match path {
                Some(p) => Some(p@),
                None => None,
            },
        ),
{
    match host {
        Some(h) => {
            let imgur_gif = str_eq(h.as_str(), "i.imgur.com") && match path {
                Some(p) => str_ends_with(p.as_str(), ".gifv"),
                None => false,
            };
            imgur_gif || str_eq(h.as_str(), "gfycat.com")
        },
        None => false,
    }
}

/// Classifies a post from its fields and from what was read from its address.
pub fn classify_with(
    is_video: bool,
    parent_is_video: bool,
    third_party_clip: bool,
    post_hint: &Option<String>,
    is_self: bool,
    is_gallery: Option<bool>,
) -> (r: PostType)
    ensures
        r == classified(
            is_video,
            parent_is_video,
            third_party_clip,
            match post_hint {
                Some(h) => Some(h@),
                None => None,
            },
            is_self,
            is_gallery,
        ),
{
    let hint_image = match post_hint {
        Some(h) => str_eq(h.as_str(), "image"),
        None => false,
    };
    let hint_link = match post_hint {
        Some(h) => str_eq(h.as_str(), "link") || str_eq(h.as_str(), "rich:video"),
        None => false,
    };
    let gallery = match is_gallery {
        Some(g) => g,
        None => false,
    };
    if is_video || parent_is_video || third_party_clip {
        PostType::Video
    } else if hint_image {
        PostType::Image
    } else if hint_link {
        PostType::Link
    } else if is_self {
        PostType::SelfText
    } else if gallery {
        PostType::Gallery
    } else {
        PostType::Unknown
    }
}

impl Post {
    pub open spec fn hint(self) -> Option<Seq<char>> {
        match self.post_hint {
            Some(h) => Some(h@),
            None => None,
        }
    }

    /// Whether the post is a crosspost of a video post.
    pub open spec fn parent_is_video(self) -> bool {
        match self.crosspost_parent_list {
            Some(parents) => any_video(parents@),
            None => false,
        }
    }

    /// The type that the classifier derives from the post's other fields.
    pub open spec fn derived_type(self) -> PostType {
        classified(
            self.is_video,
            self.parent_is_video(),
            is_third_party_clip(url_host(self.url@), url_path(self.url@)),
            self.hint(),
            self.is_self,
            self.is_gallery,
        )
    }

    /// Whether the post, and each post above it in its crosspost chain, carries
    /// the type that its fields derive.
    pub open spec fn is_classified(self) -> bool
        decreases self,
    {
        &&& self.post_type == self.derived_type()
        &&& match self.crosspost_parent_list {
            Some(parents) => forall|i: int|
                0 <= i < parents@.len() ==> (#[trigger] parents@[i]).is_classified(),
            None => true,
        }
    }

    /// Whether each post above this one in its crosspost chain carries the
    /// type that its fields derive.
    pub open spec fn parents_classified(self) -> bool {
        match self.crosspost_parent_list {
            Some(parents) => forall|i: int|
                0 <= i < parents@.len() ==> (#[trigger] parents@[i]).is_classified(),
            None => true,
        }
    }

    /// The post with its type derived anew from its other fields.
    pub fn reclassified(self) -> (r: Post)
        ensures
            r == (Post { post_type: self.derived_type(), ..self }),
            r.post_type == r.derived_type(),
            self.parents_classified() ==> r.is_classified(),
    {
        let post_type = self.classify();
        Post { post_type, ..self }
    }

    /// Derives the post's type from its other fields, whatever `post_type` holds.
    pub fn classify(&self) -> (r: PostType)
        ensures
            r == self.derived_type(),
    {
        let parent_is_video = match &self.crosspost_parent_list {
            Some(parents) => has_video(parents),
            None => false,
        };
        let host = host_of(self.url.as_str());
        let path = path_of(self.url.as_str());
        let clip = third_party_clip(&host, &path);
        classify_with(
            self.is_video,
            parent_is_video,
            clip,
            &self.post_hint,
            self.is_self,
            self.is_gallery,
        )
    }
}

/// Whether two posts agree in every field that the classifier reads: the
/// source's video flag, the types of the posts above them in the crosspost
/// chain, the address, the hint, and the flags for text and gallery.
pub open spec fn same_classified_fields(a: Post, b: Post) -> bool {
    &&& a.is_video == b.is_video
    &&& a.parent_is_video() == b.parent_is_video()
    &&& a.url@ == b.url@
    &&& a.hint() == b.hint()
    &&& a.is_self == b.is_self
    &&& a.is_gallery == b.is_gallery
}

/// The classifier is a function of the fields it reads: posts that agree in
/// them are of one type, whatever their other fields and whatever type they
/// carried before.
pub proof fn lemma_classification_is_determined(a: Post, b: Post)
    requires
        same_classified_fields(a, b),
    ensures
        a.derived_type() == b.derived_type(),
{
}

} // verus!
