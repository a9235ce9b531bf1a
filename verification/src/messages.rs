//! The texts that the bot sends.

use crate::reddit::api::{format_subreddit_url, subreddit_url};
use crate::reddit::types::Post;
use crate::text::{
    chars_of, concat_strs, decimal, join, join_strings, opt_view, push_decimal, string_views, trim_end,
    trimmed_end,
};
use crate::types::{Subscription, SubscriptionView};
use vstd::prelude::*;

verus! {

/// What stands for a character in HTML text: `<` and `>` are written as
/// entities, every other character as itself.
pub open spec fn escaped_char(c: char) -> Seq<char> {
    if c == '<' {
        "&lt;"@
    } else if c == '>' {
        "&gt;"@
    } else {
        seq![c]
    }
}

/// A text with each character escaped.
pub open spec fn escaped(s: Seq<char>) -> Seq<char>
    decreases s.len(),
{
    if s.len() == 0 {
        Seq::empty()
    } else {
        escaped(s.drop_last()) + escaped_char(s.last())
    }
}

/// An anchor that shows `text` and leads to `href`.
pub open spec fn html_anchor(href: Seq<char>, text: Seq<char>) -> Seq<char> {
    "<a href=\""@ + href + "\">"@ + escaped(text) + "</a>"@
}

/// The link to a subreddit.
pub open spec fn subreddit_link(subreddit: Seq<char>, base_url: Option<Seq<char>>) -> Seq<char> {
    html_anchor(subreddit_url(subreddit, base_url), "/r/"@ + subreddit)
}

/// The line below a post: its subreddit and the links to its comments.
pub open spec fn meta_html(post: Post, base_url: Option<Seq<char>>) -> Seq<char> {
    subreddit_link(post.subreddit@, base_url) + " ["@ + html_anchor(
        post.permalink_url(base_url),
        "comments"@,
    ) + ", "@ + html_anchor(post.old_permalink_url()->0, "old"@) + "]"@
}

/// The caption of a medium: the title, and the meta line below it.
pub open spec fn media_caption_html(post: Post, base_url: Option<Seq<char>>) -> Seq<char> {
    post.title@ + "\n"@ + meta_html(post, base_url)
}

/// The message for a link: the title as a link, and the meta line below it.
pub open spec fn link_message_html(post: Post, base_url: Option<Seq<char>>) -> Seq<char> {
    html_anchor(post.url@, post.title@) + "\n"@ + meta_html(post, base_url)
}

pub fn escape(html: &str) -> (r: String)
    ensures
        r@ == escaped(html@),
{
    let v = chars_of(html);
    let mut out = String::new();
    let mut i: usize = 0;
    assert(v@.take(0) =~= Seq::empty());
    while i < v.len()
        invariant
            i <= v.len(),
            out@ == escaped(v@.take(i as int)),
        decreases v.len() - i,
    {
        assert(v@.take(i + 1).drop_last() =~= v@.take(i as int));
        let c = v[i];
        if c == '<' {
            out.append("&lt;");
        } else if c == '>' {
            out.append("&gt;");
        } else {
            out.push(c);
        }
        i += 1;
    }
    assert(v@.take(i as int) =~= v@);
    out
}

pub fn format_html_anchor(href: &str, text: &str) -> (r: String)
    ensures
        r@ == html_anchor(href@, text@),
{
    let mut out = String::from_str("<a href=\"");
    out.append(href);
    out.append("\">");
    let shown = escape(text);
    out.append(shown.as_str());
    out.append("</a>");
    out
}

pub fn format_subreddit_link(subreddit: &str, base_url: Option<&str>) -> (r: String)
    ensures
        r@ == subreddit_link(subreddit@, opt_view(base_url)),
{
    let url = format_subreddit_url(subreddit, base_url);
    let name = concat_strs("/r/", subreddit);
    format_html_anchor(url.as_str(), name.as_str())
}

pub fn format_meta_html(post: &Post, base_url: Option<&str>) -> (r: String)
    requires
        post.old_permalink_url() is Some,
    ensures
        r@ == meta_html(*post, opt_view(base_url)),
{
    let mut out = format_subreddit_link(post.subreddit.as_str(), base_url);
    let comments_url = post.format_permalink_url(base_url);
    let comments_link = format_html_anchor(comments_url.as_str(), "comments");
    let old_url = post.format_old_permalink_url();
    let old_link = format_html_anchor(old_url.as_str(), "old");
    out.append(" [");
    out.append(comments_link.as_str());
    out.append(", ");
    out.append(old_link.as_str());
    out.append("]");
    out
}

pub fn format_media_caption_html(post: &Post, base_url: Option<&str>) -> (r: String)
    requires
        post.old_permalink_url() is Some,
    ensures
        r@ == media_caption_html(*post, opt_view(base_url)),
{
    let mut out = post.title.clone();
    let meta = format_meta_html(post, base_url);
    out.append("\n");
    out.append(meta.as_str());
    out
}

pub fn format_link_message_html(post: &Post, base_url: Option<&str>) -> (r: String)
    requires
        post.old_permalink_url() is Some,
    ensures
        r@ == link_message_html(*post, opt_view(base_url)),
{
    let mut out = format_html_anchor(post.url.as_str(), post.title.as_str());
    let meta = format_meta_html(post, base_url);
    out.append("\n");
    out.append(meta.as_str());
    out
}

/// The message for a text post is the caption of a medium.
pub fn format_self_message_html(post: &Post, base_url: Option<&str>) -> (r: String)
    requires
        post.old_permalink_url() is Some,
    ensures
        r@ == media_caption_html(*post, opt_view(base_url)),
{
    format_media_caption_html(post, base_url)
}

/// The overrides of a subscription as they are listed: window, limit, filter.
pub open spec fn subscription_overrides(sub: SubscriptionView) -> Seq<Seq<char>> {
    (match sub.time {
        Some(time) => seq!["time="@ + time.name()],
        None => Seq::empty(),
    }) + (match sub.limit {
        Some(limit) => seq!["limit="@ + decimal(limit as nat)],
        None => Seq::empty(),
    }) + (match sub.filter {
        Some(filter) => seq!["filter="@ + filter.name()],
        None => Seq::empty(),
    })
}

/// The overrides in brackets, or nothing where there is none.
pub open spec fn bracketed_overrides(sub: SubscriptionView) -> Seq<char> {
    if subscription_overrides(sub).len() > 0 {
        "("@ + join(subscription_overrides(sub), ", "@) + ")"@
    } else {
        Seq::empty()
    }
}

/// The line of one subscription: the subreddit, a space and the overrides in
/// brackets, without white space at the end.
pub open spec fn subscription_line(sub: SubscriptionView) -> Seq<char> {
    trim_end(sub.subreddit + " "@ + bracketed_overrides(sub))
}

/// The list of subscriptions as it is shown: one line each, or a note that
/// there is none.
pub open spec fn subscription_list_of(subs: Seq<SubscriptionView>) -> Seq<char> {
    if subs.len() == 0 {
        "No subscriptions"@
    } else {
        join(subs.map_values(|sub: SubscriptionView| subscription_line(sub)), "\n"@)
    }
}

/// The lines of the subscriptions.
pub open spec fn subscription_lines(subs: Seq<Subscription>) -> Seq<Seq<char>> {
    subs.map_values(|sub: Subscription| subscription_line(sub@))
}

/// The list of subscriptions as it is shown.
pub open spec fn subscription_list(subs: Seq<Subscription>) -> Seq<char> {
    subscription_list_of(subs.map_values(|sub: Subscription| sub@))
}

/// The list is made of the lines of its subscriptions.
pub proof fn lemma_subscription_list_of(subs: Seq<Subscription>)
    ensures
        subs.len() > 0 ==> subscription_list(subs) == join(subscription_lines(subs), "\n"@),
        subs.len() == 0 ==> subscription_list(subs) == "No subscriptions"@,
        subscription_list(subs) == subscription_list_of(crate::db::store::subscription_views(subs)),
{
    assert(subs.map_values(|sub: Subscription| sub@).map_values(
        |sub: SubscriptionView| subscription_line(sub),
    ) =~= subscription_lines(subs));
}

pub fn format_subscription(sub: &Subscription) -> (r: String)
    ensures
        r@ == subscription_line(sub@),
{
    let mut args: Vec<String> = Vec::new();
    assert(string_views(args@) =~= Seq::empty());
    match sub.time {
        Some(time) => {
            let arg = concat_strs("time=", time.as_str());
            assert(string_views(args@.push(arg)) =~= string_views(args@).push(arg@));
            args.push(arg);
        },
        None => {},
    }
    match sub.limit {
        Some(limit) => {
            let mut arg = String::from_str("limit=");
            push_decimal(&mut arg, limit);
            assert(string_views(args@.push(arg)) =~= string_views(args@).push(arg@));
            args.push(arg);
        },
        None => {},
    }
    match sub.filter {
        Some(filter) => {
            let arg = concat_strs("filter=", filter.as_str());
            assert(string_views(args@.push(arg)) =~= string_views(args@).push(arg@));
            args.push(arg);
        },
        None => {},
    }
    assert(string_views(args@) =~= subscription_overrides(sub@));
    let mut line = concat_strs(sub.subreddit.as_str(), " ");
    if args.len() > 0 {
        let joined = join_strings(&args, ", ");
        line.append("(");
        line.append(joined.as_str());
        line.append(")");
        assert(line@ =~= sub@.subreddit + " "@ + bracketed_overrides(sub@));
    } else {
        assert(line@ =~= sub@.subreddit + " "@ + bracketed_overrides(sub@));
    }
    trimmed_end(line.as_str())
}

pub fn format_subscription_list(post: &[Subscription]) -> (r: String)
    ensures
        r@ == subscription_list(post@),
{
    proof {
        lemma_subscription_list_of(post@);
    }
    if post.len() == 0 {
        return String::from_str("No subscriptions");
    }
    let mut lines: Vec<String> = Vec::new();
    let mut i: usize = 0;
    assert(string_views(lines@) =~= subscription_lines(post@.take(0)));
    while i < post.len()
        invariant
            i <= post.len(),
            string_views(lines@) == subscription_lines(post@.take(i as int)),
        decreases post.len() - i,
    {
        let line = format_subscription(&post[i]);
        assert(string_views(lines@.push(line)) =~= subscription_lines(post@.take(i + 1))) by {
            assert(post@.take(i + 1) =~= post@.take(i as int).push(post@[i as int]));
            assert(string_views(lines@.push(line)) =~= string_views(lines@).push(line@));
            assert(subscription_lines(post@.take(i as int).push(post@[i as int]))
                =~= subscription_lines(post@.take(i as int)).push(line@));
        }
        lines.push(line);
        i += 1;
    }
    assert(post@.take(i as int) =~= post@);
    join_strings(&lines, "\n")
}

} // verus!
