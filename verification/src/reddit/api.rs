//! The addresses of the content source.

use crate::reddit::kinds::TopPostsTimePeriod;
use crate::reddit::types::{
    ListingItem, ListingResponse, Post, SubredditAbout, SubredditAboutResponse,
};
use crate::reddit::urls::{url_with_host, with_host};
use crate::text::{concat_strs, decimal, opt_view, push_decimal};
use vstd::prelude::*;

verus! {

/// Where the content source lives.
pub const REDDIT_BASE_URL: &'static str = "https://www.reddit.com";

/// The host of the source's older pages.
pub const OLD_REDDIT_HOST: &'static str = "old.reddit.com";

/// The base under which links are written: the one given, else the source's own.
pub open spec fn base_or_default(base_url: Option<Seq<char>>) -> Seq<char> {
    match base_url {
        Some(base) => base,
        None => REDDIT_BASE_URL@,
    }
}

/// The address of a path under a base.
pub open spec fn url_from_path(path: Seq<char>, base_url: Option<Seq<char>>) -> Seq<char> {
    base_or_default(base_url) + path
}

/// The address of a subreddit under a base.
pub open spec fn subreddit_url(subreddit: Seq<char>, base_url: Option<Seq<char>>) -> Seq<char> {
    url_from_path("/r/"@ + subreddit, base_url)
}

/// The same address on the source's older pages, where the text is an address
/// whose host can be set.
pub open spec fn old_reddit_url(url: Seq<char>) -> Option<Seq<char>> {
    url_with_host(url, OLD_REDDIT_HOST@)
}

pub fn format_url_from_path(path: &str, base_url: Option<&str>) -> (r: String)
    ensures
        r@ == url_from_path(path@, opt_view(base_url)),
{
    let base = match base_url {
        Some(u) => u,
        None => REDDIT_BASE_URL,
    };
    concat_strs(base, path)
}

pub fn format_subreddit_url(subreddit: &str, base_url: Option<&str>) -> (r: String)
    ensures
        r@ == subreddit_url(subreddit@, opt_view(base_url)),
{
    let path = concat_strs("/r/", subreddit);
    format_url_from_path(path.as_str(), base_url)
}

/// The address on the source's older pages, or `None` where `url` is no address
/// whose host can be set.
pub fn try_to_old_reddit_url(url: &str) -> (r: Option<String>)
    ensures
        r is Some == old_reddit_url(url@) is Some,
        r is Some ==> r->0@ == old_reddit_url(url@)->0,
{
    with_host(url, OLD_REDDIT_HOST)
}

/// The address on the source's older pages.
pub fn to_old_reddit_url(url: &str) -> (r: String)
    requires
        old_reddit_url(url@) is Some,
    ensures
        r@ == old_reddit_url(url@)->0,
{
    try_to_old_reddit_url(url).unwrap()
}

impl Post {
    /// The address of the post's comments under a base.
    pub open spec fn permalink_url(self, base_url: Option<Seq<char>>) -> Seq<char> {
        url_from_path(self.permalink@, base_url)
    }

    /// The address of the post's comments on the source's older pages.
    pub open spec fn old_permalink_url(self) -> Option<Seq<char>> {
        old_reddit_url(self.permalink_url(None))
    }

    pub fn format_permalink_url(&self, base_url: Option<&str>) -> (r: String)
        ensures
            r@ == self.permalink_url(opt_view(base_url)),
    {
        format_url_from_path(self.permalink.as_str(), base_url)
    }

    /// The address of the post's comments on the source's older pages, or `None`
    /// where the permalink makes no address.
    pub fn try_format_old_permalink_url(&self) -> (r: Option<String>)
        ensures
            r is Some == self.old_permalink_url() is Some,
            r is Some ==> r->0@ == self.old_permalink_url()->0,
    {
        let url = format_url_from_path(self.permalink.as_str(), None);
        try_to_old_reddit_url(url.as_str())
    }

    pub fn format_old_permalink_url(&self) -> (r: String)
        requires
            self.old_permalink_url() is Some,
        ensures
            r@ == self.old_permalink_url()->0,
    {
        let url = format_url_from_path(self.permalink.as_str(), None);
        to_old_reddit_url(url.as_str())
    }
}

/// A question to the content source: a path under its base, and the pairs of
/// its query.
#[derive(Debug)]
pub struct ApiRequest {
    pub path: String,
    pub query: Vec<(String, String)>,
}

pub struct ApiRequestView {
    pub path: Seq<char>,
    pub query: Seq<(Seq<char>, Seq<char>)>,
}

impl View for ApiRequest {
    type V = ApiRequestView;

    open spec fn view(&self) -> ApiRequestView {
        ApiRequestView {
            path: self.path@,
            query: self.query@.map_values(|pair: (String, String)| (pair.0@, pair.1@)),
        }
    }
}

/// The question for the top posts of a subreddit.
pub open spec fn top_posts_request_of(
    subreddit: Seq<char>,
    limit: u32,
    time: TopPostsTimePeriod,
) -> ApiRequestView {
    ApiRequestView {
        path: "/r/"@ + subreddit + "/top.json"@,
        query: seq![("limit"@, decimal(limit as nat)), ("t"@, time.name())],
    }
}

/// The question for a single post.
pub open spec fn link_request_of(link_id: Seq<char>) -> ApiRequestView {
    ApiRequestView { path: "/api/info.json"@, query: seq![("id"@, "t3_"@ + link_id)] }
}

/// The question whether a subreddit exists.
pub open spec fn about_request_of(subreddit: Seq<char>) -> ApiRequestView {
    ApiRequestView { path: "/r/"@ + subreddit + "/about.json"@, query: Seq::empty() }
}

pub fn top_posts_request(subreddit: &str, limit: u32, time: &TopPostsTimePeriod) -> (r: ApiRequest)
    ensures
        r@ == top_posts_request_of(subreddit@, limit, *time),
{
    let mut path = concat_strs("/r/", subreddit);
    path.append("/top.json");
    let mut number = String::new();
    push_decimal(&mut number, limit);
    let mut query: Vec<(String, String)> = Vec::new();
    query.push((String::from_str("limit"), number));
    query.push((String::from_str("t"), time.to_string()));
    let request = ApiRequest { path, query };
    assert(request@.query =~= top_posts_request_of(subreddit@, limit, *time).query);
    request
}

pub fn link_request(link_id: &str) -> (r: ApiRequest)
    ensures
        r@ == link_request_of(link_id@),
{
    let mut query: Vec<(String, String)> = Vec::new();
    query.push((String::from_str("id"), concat_strs("t3_", link_id)));
    let request = ApiRequest { path: String::from_str("/api/info.json"), query };
    assert(request@.query =~= link_request_of(link_id@).query);
    request
}

pub fn about_request(subreddit: &str) -> (r: ApiRequest)
    ensures
        r@ == about_request_of(subreddit@),
{
    let mut path = concat_strs("/r/", subreddit);
    path.append("/about.json");
    let request = ApiRequest { path, query: Vec::new() };
    assert(request@.query =~= about_request_of(subreddit@).query);
    request
}

/// Whether a status of the transport tells of success: 200 to 299.
pub open spec fn is_success(status: u16) -> bool {
    200 <= status < 300
}

/// The status by which the source tells that a subreddit does not exist: it
/// sends the asker elsewhere.
pub const STATUS_FOUND: u16 = 302;

/// Why a listing or a single post could not be had.
#[derive(Debug, Clone, Copy, PartialEq, Eq, Structural)]
pub enum SourceError {
    /// The source answered with a status that tells of no success.
    Status(u16),
    /// The answer could not be read.
    Decode,
    /// The answer holds no post.
    NoPost,
}

/// Why the question about a subreddit was not answered.
#[derive(Debug, Clone, Copy, PartialEq, Eq, Structural)]
pub enum SubredditAboutError {
    /// There is no such subreddit.
    NoSuchSubreddit,
    /// The answer could not be read.
    Decode,
}

/// The posts of a listing, in its order.
pub fn posts_of(response: ListingResponse) -> (r: Vec<Post>)
    ensures
        r@ == response.data.children@.map_values(|item: ListingItem| item.data),
{
    let mut children = response.data.children;
    let ghost all = children@;
    let mut posts: Vec<Post> = Vec::new();
    while children.len() > 0
        invariant
            children@.len() + posts@.len() == all.len(),
            children@ == all.take(children@.len() as int),
            forall|i: int|
                0 <= i < posts@.len() ==> posts@[i] == (#[trigger] all[all.len() - 1 - i]).data,
        decreases children.len(),
    {
        let item = children.pop().unwrap();
        posts.push(item.data);
        assert(children@ =~= all.take(children@.len() as int));
    }
    let mut ordered: Vec<Post> = Vec::new();
    let ghost reversed = posts@;
    while posts.len() > 0
        invariant
            reversed.len() == all.len(),
            posts@ == reversed.take(posts@.len() as int),
            ordered@.len() + posts@.len() == all.len(),
            forall|i: int| 0 <= i < reversed.len() ==> reversed[i] == (#[trigger] all[all.len() - 1 - i]).data,
            forall|i: int| 0 <= i < ordered@.len() ==> ordered@[i] == (#[trigger] all[i]).data,
        decreases posts.len(),
    {
        let post = posts.pop().unwrap();
        proof {
            let n = ordered@.len() as int;
            assert(post == reversed[reversed.len() - 1 - n]);
            assert(all[all.len() - 1 - (reversed.len() - 1 - n)] == all[n]);
        }
        ordered.push(post);
        assert(posts@ =~= reversed.take(posts@.len() as int));
    }
    assert(ordered@ =~= all.map_values(|item: ListingItem| item.data));
    ordered
}

/// The post that the source sent for a question about a single post: the
/// first of the answer. A status that tells of no success is an error whatever
/// the answer holds; `decoded` is `None` where the answer could not be read.
pub fn link_from_response(status: u16, decoded: Option<ListingResponse>) -> (r: Result<
    Post,
    SourceError,
>)
    ensures
        !is_success(status) ==> r is Err && r->Err_0 == SourceError::Status(status),
        is_success(status) && decoded is None ==> r is Err && r->Err_0 == SourceError::Decode,
        is_success(status) && decoded is Some && decoded->0.data.children@.len() == 0 ==> r is Err
            && r->Err_0 == SourceError::NoPost,
        is_success(status) && decoded is Some && decoded->0.data.children@.len() > 0 ==> r is Ok
            && r->Ok_0 == decoded->0.data.children@[0].data,
{
    if !(200 <= status && status < 300) {
        return Err(SourceError::Status(status));
    }
    match decoded {
        Some(response) => {
            let mut children = response.data.children;
            if children.len() == 0 {
                Err(SourceError::NoPost)
            } else {
                Ok(children.swap_remove(0).data)
            }
        },
        None => Err(SourceError::Decode),
    }
}

/// What the source said of a subreddit. The status `302` says that there is none,
/// whatever else was sent; `decoded` is `None` where the answer could not be read.
pub fn about_from_response(status: u16, decoded: Option<SubredditAboutResponse>) -> (r: Result<
    SubredditAbout,
    SubredditAboutError,
>)
    ensures
        status == STATUS_FOUND ==> r is Err && r->Err_0 == SubredditAboutError::NoSuchSubreddit,
        status != STATUS_FOUND && decoded is None ==> r is Err && r->Err_0
            == SubredditAboutError::Decode,
        status != STATUS_FOUND && decoded is Some ==> r is Ok && r->Ok_0 == decoded->0.data,
{
    if status == STATUS_FOUND {
        return Err(SubredditAboutError::NoSuchSubreddit);
    }
    match decoded {
        Some(response) => Ok(response.data),
        None => Err(SubredditAboutError::Decode),
    }
}

} // verus!
