//! The delivery of a post: which pipeline takes it, and what that pipeline is
//! to download and send.

use crate::config::Config;
use crate::messages::{
    format_link_message_html, format_media_caption_html, format_self_message_html,
    link_message_html, media_caption_html,
};
use crate::reddit::kinds::PostType;
use crate::reddit::types::{GalleryDataItem, MediaEntry, Post};
use crate::text::{opt_as_str, replace, replace_all, str_eq, string_views};
use vstd::pervasive::unreached;
use vstd::prelude::*;

verus! {

/// The ways in which a post is delivered.
#[derive(Debug, Clone, Copy, PartialEq, Eq, Structural)]
pub enum Pipeline {
    Video,
    Image,
    Gallery,
    Link,
    SelfText,
}

/// The pipeline of each type of post. A post of unknown type goes the way of a link.
pub open spec fn pipeline_of(post_type: PostType) -> Pipeline {
    match post_type {
        PostType::Image => Pipeline::Image,
        PostType::Video => Pipeline::Video,
        PostType::Link => Pipeline::Link,
        PostType::SelfText => Pipeline::SelfText,
        PostType::Gallery => Pipeline::Gallery,
        PostType::Unknown => Pipeline::Link,
    }
}

pub fn route(post_type: PostType) -> (r: Pipeline)
    ensures
        r == pipeline_of(post_type),
{
    match post_type {
        PostType::Image => Pipeline::Image,
        PostType::Video => Pipeline::Video,
        PostType::Link => Pipeline::Link,
        PostType::SelfText => Pipeline::SelfText,
        PostType::Gallery => Pipeline::Gallery,
        PostType::Unknown => Pipeline::Link,
    }
}

/// Whether the post is to be fetched by its id before it is delivered: a
/// listing may leave out the hint that the single post carries.
pub fn needs_refetch(post: &Post) -> (r: bool)
    ensures
        r == (post.post_hint is None),
{
    post.post_hint.is_none()
}

/// One medium of a gallery to download.
#[derive(Debug)]
pub struct MediaDownload {
    pub media_id: String,
    pub url: String,
}

/// What a pipeline is to do.
#[derive(Debug)]
pub enum Delivery {
    /// Have the downloader fetch the video at `url`, then send it with the caption.
    Video { url: String, caption: String },
    /// Download the image at `url`, then send it with the caption.
    Image { url: String, caption: String },
    /// Download every medium of `downloads`, then send those named in `album`,
    /// in that order, as one album with the caption on its first item only.
    Gallery { downloads: Vec<MediaDownload>, album: Vec<String>, caption: String },
    /// Send a text message.
    Text { html: String, disable_web_page_preview: bool },
}

/// Why no delivery could be planned.
#[derive(Debug, Clone, Copy, PartialEq, Eq, Structural)]
pub enum DeliveryError {
    /// A gallery post without the order of its media.
    MissingGalleryData,
    /// A gallery post without the addresses of its media.
    MissingMediaMetadata,
    /// The post's permalink makes no address.
    BadPermalink,
}

pub struct MediaDownloadView {
    pub media_id: Seq<char>,
    pub url: Seq<char>,
}

pub enum DeliveryView {
    Video { url: Seq<char>, caption: Seq<char> },
    Image { url: Seq<char>, caption: Seq<char> },
    Gallery { downloads: Seq<MediaDownloadView>, album: Seq<Seq<char>>, caption: Seq<char> },
    Text { html: Seq<char>, disable_web_page_preview: bool },
}

impl View for MediaDownload {
    type V = MediaDownloadView;

    open spec fn view(&self) -> MediaDownloadView {
        MediaDownloadView { media_id: self.media_id@, url: self.url@ }
    }
}

impl View for Delivery {
    type V = DeliveryView;

    open spec fn view(&self) -> DeliveryView {
        match *self {
            Delivery::Video { url, caption } => DeliveryView::Video {
                url: url@,
                caption: caption@,
            },
            Delivery::Image { url, caption } => DeliveryView::Image {
                url: url@,
                caption: caption@,
            },
            Delivery::Gallery { downloads, album, caption } => DeliveryView::Gallery {
                downloads: downloads@.map_values(|d: MediaDownload| d@),
                album: string_views(album@),
                caption: caption@,
            },
            Delivery::Text { html, disable_web_page_preview } => DeliveryView::Text {
                html: html@,
                disable_web_page_preview,
            },
        }
    }
}

/// The address of a medium: the source writes `&` as an entity.
pub open spec fn media_url(raw: Seq<char>) -> Seq<char> {
    replace_all(raw, "&amp;"@, "&"@)
}

/// The download of one medium.
pub open spec fn download_of(entry: MediaEntry) -> MediaDownloadView {
    MediaDownloadView { media_id: entry.media_id@, url: media_url(entry.metadata.s.url@) }
}

/// Every medium that the source describes is downloaded.
pub open spec fn gallery_downloads(media: Seq<MediaEntry>) -> Seq<MediaDownloadView> {
    media.map_values(|entry: MediaEntry| download_of(entry))
}

/// Whether the source describes a medium of this id.
pub open spec fn has_medium(media: Seq<MediaEntry>, media_id: Seq<char>) -> bool {
    exists|i: int| 0 <= i < media.len() && (#[trigger] media[i]).media_id@ == media_id
}

/// The album: the gallery's items in their declared order, without those
/// whose medium the source does not describe.
pub open spec fn gallery_album(items: Seq<GalleryDataItem>, media: Seq<MediaEntry>) -> Seq<
    Seq<char>,
> {
    items.filter(|item: GalleryDataItem| has_medium(media, item.media_id@)).map_values(
        |item: GalleryDataItem| item.media_id@,
    )
}

/// The delivery of a post, by the pipeline of its type.
pub open spec fn planned(post: Post, base_url: Option<Seq<char>>) -> Result<
    DeliveryView,
    DeliveryError,
> {
    match pipeline_of(post.post_type) {
        Pipeline::Gallery => if post.gallery_data is None {
            Err(DeliveryError::MissingGalleryData)
        } else if post.media_metadata is None {
            Err(DeliveryError::MissingMediaMetadata)
        } else if post.old_permalink_url() is None {
            Err(DeliveryError::BadPermalink)
        } else {
            Ok(
                DeliveryView::Gallery {
                    downloads: gallery_downloads(post.media_metadata->0@),
                    album: gallery_album(post.gallery_data->0.items@, post.media_metadata->0@),
                    caption: media_caption_html(post, base_url),
                },
            )
        },
        pipeline => if post.old_permalink_url() is None {
            Err(DeliveryError::BadPermalink)
        } else {
            Ok(
                match pipeline {
                    Pipeline::Video => DeliveryView::Video {
                        url: post.url@,
                        caption: media_caption_html(post, base_url),
                    },
                    Pipeline::Image => DeliveryView::Image {
                        url: post.url@,
                        caption: media_caption_html(post, base_url),
                    },
                    Pipeline::Link => DeliveryView::Text {
                        html: link_message_html(post, base_url),
                        disable_web_page_preview: false,
                    },
                    _ => DeliveryView::Text {
                        html: media_caption_html(post, base_url),
                        disable_web_page_preview: true,
                    },
                },
            )
        },
    }
}

/// Lists the downloads of a gallery.
pub fn download_gallery(media: &Vec<MediaEntry>) -> (r: Vec<MediaDownload>)
    ensures
        r@.map_values(|d: MediaDownload| d@) == gallery_downloads(media@),
{
    let mut out: Vec<MediaDownload> = Vec::new();
    let mut i: usize = 0;
    while i < media.len()
        invariant
            i <= media.len(),
            out@.map_values(|d: MediaDownload| d@) =~= gallery_downloads(media@.take(i as int)),
        decreases media.len() - i,
    {
        let entry = &media[i];
        let download = MediaDownload {
            media_id: entry.media_id.clone(),
            url: replace(entry.metadata.s.url.as_str(), "&amp;", "&"),
        };
        proof {
            assert(media@.take(i + 1) =~= media@.take(i as int).push(media@[i as int]));
            assert(out@.push(download).map_values(|d: MediaDownload| d@) =~= out@.map_values(
                |d: MediaDownload| d@,
            ).push(download@));
            assert(gallery_downloads(media@.take(i as int).push(media@[i as int]))
                =~= gallery_downloads(media@.take(i as int)).push(download@));
        }
        out.push(download);
        i += 1;
    }
    proof {
        assert(media@.take(i as int) =~= media@);
    }
    out
}

fn describes(media: &Vec<MediaEntry>, media_id: &str) -> (r: bool)
    ensures
        r == has_medium(media@, media_id@),
{
    let mut i: usize = 0;
    while i < media.len()
        invariant
            i <= media.len(),
            forall|j: int| 0 <= j < i ==> (#[trigger] media@[j]).media_id@ != media_id@,
        decreases media.len() - i,
    {
        if str_eq(media[i].media_id.as_str(), media_id) {
            return true;
        }
        i += 1;
    }
    false
}

/// Lists the album of a gallery.
pub fn album_of(items: &Vec<GalleryDataItem>, media: &Vec<MediaEntry>) -> (r: Vec<String>)
    ensures
        string_views(r@) == gallery_album(items@, media@),
{
    let mut out: Vec<String> = Vec::new();
    let mut i: usize = 0;
    proof {
        reveal(Seq::filter);
        assert(items@.take(0) =~= Seq::empty());
        assert(string_views(out@) =~= gallery_album(items@.take(0), media@));
    }
    while i < items.len()
        invariant
            i <= items.len(),
            string_views(out@) == gallery_album(items@.take(i as int), media@),
        decreases items.len() - i,
    {
        proof {
            reveal(Seq::filter);
            assert(items@.take(i + 1).drop_last() =~= items@.take(i as int));
            assert(items@.take(i + 1).last() == items@[i as int]);
        }
        if describes(media, items[i].media_id.as_str()) {
            let id = items[i].media_id.clone();
            proof {
                let kept = items@.take(i as int).filter(
                    |item: GalleryDataItem| has_medium(media@, item.media_id@),
                );
                assert(string_views(out@.push(id)) =~= string_views(out@).push(id@));
                assert(kept.push(items@[i as int]).map_values(
                    |item: GalleryDataItem| item.media_id@,
                ) =~= kept.map_values(|item: GalleryDataItem| item.media_id@).push(id@));
            }
            out.push(id);
        }
        i += 1;
    }
    proof {
        assert(items@.take(i as int) =~= items@);
    }
    out
}

/// The delivery of a video post: the downloader takes the post's address.
pub fn handle_new_video_post(config: &Config, post: &Post) -> (r: Delivery)
    requires
        post.old_permalink_url() is Some,
    ensures
        r@ == (DeliveryView::Video {
            url: post.url@,
            caption: media_caption_html(*post, config.links_base()),
        }),
{
    Delivery::Video {
        url: post.url.clone(),
        caption: format_media_caption_html(post, opt_as_str(&config.links_base_url)),
    }
}

/// The delivery of an image post: the image is downloaded from the post's address.
pub fn handle_new_image_post(config: &Config, post: &Post) -> (r: Delivery)
    requires
        post.old_permalink_url() is Some,
    ensures
        r@ == (DeliveryView::Image {
            url: post.url@,
            caption: media_caption_html(*post, config.links_base()),
        }),
{
    Delivery::Image {
        url: post.url.clone(),
        caption: format_media_caption_html(post, opt_as_str(&config.links_base_url)),
    }
}

/// The delivery of a link post: a message that links the address, with a preview.
pub fn handle_new_link_post(config: &Config, post: &Post) -> (r: Delivery)
    requires
        post.old_permalink_url() is Some,
    ensures
        r@ == (DeliveryView::Text {
            html: link_message_html(*post, config.links_base()),
            disable_web_page_preview: false,
        }),
{
    Delivery::Text {
        html: format_link_message_html(post, opt_as_str(&config.links_base_url)),
        disable_web_page_preview: false,
    }
}

/// The delivery of a text post: a message without a link to elsewhere, and
/// without a preview.
pub fn handle_new_self_post(config: &Config, post: &Post) -> (r: Delivery)
    requires
        post.old_permalink_url() is Some,
    ensures
        r@ == (DeliveryView::Text {
            html: media_caption_html(*post, config.links_base()),
            disable_web_page_preview: true,
        }),
{
    Delivery::Text {
        html: format_self_message_html(post, opt_as_str(&config.links_base_url)),
        disable_web_page_preview: true,
    }
}

/// The delivery of a gallery post: every medium is downloaded, and the album
/// follows the gallery's declared order.
pub fn handle_new_gallery_post(config: &Config, post: &Post) -> (r: Delivery)
    requires
        post.old_permalink_url() is Some,
        post.gallery_data is Some,
        post.media_metadata is Some,
    ensures
        r@ == (DeliveryView::Gallery {
            downloads: gallery_downloads(post.media_metadata->0@),
            album: gallery_album(post.gallery_data->0.items@, post.media_metadata->0@),
            caption: media_caption_html(*post, config.links_base()),
        }),
{
    let items = match &post.gallery_data {
        Some(data) => &data.items,
        None => unreached(),
    };
    let media = match &post.media_metadata {
        Some(media) => media,
        None => unreached(),
    };
    Delivery::Gallery {
        downloads: download_gallery(media),
        album: album_of(items, media),
        caption: format_media_caption_html(post, opt_as_str(&config.links_base_url)),
    }
}

/// Plans the delivery of a post by the pipeline of its type, with links
/// written under the base of the settings. A gallery without its data, and a
/// post whose permalink makes no address, cannot be delivered.
pub fn handle_new_post(config: &Config, post: &Post) -> (r: Result<Delivery, DeliveryError>)
    ensures
        r is Ok == planned(*post, config.links_base()) is Ok,
        r is Ok ==> r->Ok_0@ == planned(*post, config.links_base())->Ok_0,
        r is Err ==> r->Err_0 == planned(*post, config.links_base())->Err_0,
{
    let pipeline = route(post.post_type);
    if pipeline == Pipeline::Gallery {
        if post.gallery_data.is_none() {
            return Err(DeliveryError::MissingGalleryData);
        }
        if post.media_metadata.is_none() {
            return Err(DeliveryError::MissingMediaMetadata);
        }
    }
    if post.try_format_old_permalink_url().is_none() {
        return Err(DeliveryError::BadPermalink);
    }
    match pipeline {
        Pipeline::Video => Ok(handle_new_video_post(config, post)),
        Pipeline::Image => Ok(handle_new_image_post(config, post)),
        Pipeline::Gallery => Ok(handle_new_gallery_post(config, post)),
        Pipeline::Link => Ok(handle_new_link_post(config, post)),
        Pipeline::SelfText => Ok(handle_new_self_post(config, post)),
    }
}

} // verus!
