//! What holds of every poll.

use crate::db::laws::{lemma_mark_seen_well_formed, lemma_seen_in_is_kept, lemma_seen_is_kept};
use crate::db::model::StoreView;
use crate::db::store::seen_row;
use crate::config::Config;
use crate::poller::{only_marks_seen, or_setting, passes_filter, poll_posts, poll_subscription};
use crate::types::Subscription;
use crate::reddit::kinds::PostType;
use crate::reddit::types::Post;
use vstd::prelude::*;

verus! {

/// A poll touches nothing but the table of seen posts, keeps the store well
/// formed, and takes no seen post away: what was seen before, for any chat, is
/// seen after.
pub proof fn lemma_poll_keeps_store(
    store: StoreView,
    chat_id: i64,
    filter: Option<PostType>,
    only_mark_seen: bool,
    posts: Seq<Post>,
    seen_at: i64,
)
    requires
        store.well_formed(),
        store.has_post_table(),
    ensures
        ({
            let after = poll_posts(store, chat_id, filter, only_mark_seen, posts, seen_at).store;
            &&& after.well_formed()
            &&& after.subscriptions == store.subscriptions
            &&& after.schema_version == store.schema_version
            &&& after.reject_overwrites == store.reject_overwrites
            &&& forall|c: i64, p: Seq<char>| store.is_seen(c, p) ==> #[trigger] after.is_seen(c, p)
            &&& forall|c: i64, s: Seq<char>|
                store.has_seen_in(c, s) ==> #[trigger] after.has_seen_in(c, s)
        }),
    decreases posts.len(),
{
    if posts.len() > 0 {
        lemma_poll_keeps_store(store, chat_id, filter, only_mark_seen, posts.drop_last(), seen_at);
        let before = poll_posts(store, chat_id, filter, only_mark_seen, posts.drop_last(), seen_at).store;
        let after = poll_posts(store, chat_id, filter, only_mark_seen, posts, seen_at).store;
        let row = seen_row(chat_id, posts.last(), seen_at);
        lemma_mark_seen_well_formed(before, row);
        assert forall|c: i64, p: Seq<char>| store.is_seen(c, p) implies #[trigger] after.is_seen(
            c,
            p,
        ) by {
            assert(before.is_seen(c, p));
            lemma_seen_is_kept(before, row, c, p);
        }
        assert forall|c: i64, s: Seq<char>| store.has_seen_in(c, s) implies #[trigger] after.has_seen_in(
            c,
            s,
        ) by {
            assert(before.has_seen_in(c, s));
            lemma_seen_in_is_kept(before, row, c, s);
        }
    }
}

/// A poll that only marks delivers nothing.
pub proof fn lemma_only_marking_delivers_nothing(
    store: StoreView,
    chat_id: i64,
    filter: Option<PostType>,
    posts: Seq<Post>,
    seen_at: i64,
)
    ensures
        poll_posts(store, chat_id, filter, true, posts, seen_at).deliveries.len() == 0,
    decreases posts.len(),
{
    if posts.len() > 0 {
        lemma_only_marking_delivers_nothing(store, chat_id, filter, posts.drop_last(), seen_at);
    }
}

/// After a poll, every post of the listing that the filter keeps is seen, be
/// it delivered, only marked, or seen before.
pub proof fn lemma_poll_marks_kept_posts(
    store: StoreView,
    chat_id: i64,
    filter: Option<PostType>,
    only_mark_seen: bool,
    posts: Seq<Post>,
    seen_at: i64,
    i: int,
)
    requires
        store.well_formed(),
        store.has_post_table(),
        0 <= i < posts.len(),
        passes_filter(filter, posts[i].post_type),
    ensures
        poll_posts(store, chat_id, filter, only_mark_seen, posts, seen_at).store.is_seen(
            chat_id,
            posts[i].id@,
        ),
    decreases posts.len(),
{
    let front = posts.drop_last();
    let before = poll_posts(store, chat_id, filter, only_mark_seen, front, seen_at).store;
    let row = seen_row(chat_id, posts.last(), seen_at);
    if i == posts.len() - 1 {
        lemma_seen_is_kept(before, row, chat_id, posts[i].id@);
    } else {
        lemma_poll_marks_kept_posts(store, chat_id, filter, only_mark_seen, front, seen_at, i);
        assert(front[i] == posts[i]);
        lemma_seen_is_kept(before, row, chat_id, posts[i].id@);
    }
}

/// A post is seen after a poll only if it was seen before or stands in the
/// listing where the filter keeps it.
pub proof fn lemma_poll_marks_only_kept_posts(
    store: StoreView,
    chat_id: i64,
    filter: Option<PostType>,
    only_mark_seen: bool,
    posts: Seq<Post>,
    seen_at: i64,
    post_id: Seq<char>,
)
    requires
        poll_posts(store, chat_id, filter, only_mark_seen, posts, seen_at).store.is_seen(
            chat_id,
            post_id,
        ),
        !store.is_seen(chat_id, post_id),
    ensures
        exists|i: int|
            0 <= i < posts.len() && (#[trigger] posts[i]).id@ == post_id && passes_filter(
                filter,
                posts[i].post_type,
            ),
    decreases posts.len(),
{
    if posts.len() > 0 {
        let front = posts.drop_last();
        let before = poll_posts(store, chat_id, filter, only_mark_seen, front, seen_at).store;
        let row = seen_row(chat_id, posts.last(), seen_at);
        if before.is_seen(chat_id, post_id) {
            lemma_poll_marks_only_kept_posts(
                store,
                chat_id,
                filter,
                only_mark_seen,
                front,
                seen_at,
                post_id,
            );
            let i = choose|i: int|
                0 <= i < front.len() && (#[trigger] front[i]).id@ == post_id && passes_filter(
                    filter,
                    front[i].post_type,
                );
            assert(posts[i] == front[i]);
        } else {
            lemma_seen_is_kept(before, row, chat_id, post_id);
            assert(posts[posts.len() - 1] == posts.last());
        }
    }
}

/// Every delivery of a poll is of a post of the listing that the filter keeps
/// and that the chat had not seen before the poll; the deliveries follow the
/// listing's order; and the poll was not one that only marks.
pub proof fn lemma_deliveries_are_new(
    store: StoreView,
    chat_id: i64,
    filter: Option<PostType>,
    only_mark_seen: bool,
    posts: Seq<Post>,
    seen_at: i64,
)
    requires
        store.well_formed(),
        store.has_post_table(),
    ensures
        ({
            let deliveries = poll_posts(store, chat_id, filter, only_mark_seen, posts, seen_at).deliveries;
            &&& deliveries.len() > 0 ==> !only_mark_seen
            &&& forall|k: int|
                0 <= k < deliveries.len() ==> {
                    let d = #[trigger] deliveries[k];
                    &&& 0 <= d < posts.len()
                    &&& passes_filter(filter, posts[d].post_type)
                    &&& !store.is_seen(chat_id, posts[d].id@)
                }
            &&& forall|k: int, l: int|
                0 <= k < l < deliveries.len() ==> deliveries[k] < deliveries[l] && posts[deliveries[k]].id@
                    != posts[deliveries[l]].id@
        }),
    decreases posts.len(),
{
    if posts.len() > 0 {
        let front = posts.drop_last();
        lemma_deliveries_are_new(store, chat_id, filter, only_mark_seen, front, seen_at);
        lemma_poll_keeps_store(store, chat_id, filter, only_mark_seen, front, seen_at);
        let before = poll_posts(store, chat_id, filter, only_mark_seen, front, seen_at);
        let deliveries = poll_posts(store, chat_id, filter, only_mark_seen, posts, seen_at).deliveries;
        let last = posts.len() - 1;
        assert forall|k: int| 0 <= k < deliveries.len() implies ({
            let d = #[trigger] deliveries[k];
            &&& 0 <= d < posts.len()
            &&& passes_filter(filter, posts[d].post_type)
            &&& !store.is_seen(chat_id, posts[d].id@)
        }) by {
            if k < before.deliveries.len() {
                let d = before.deliveries[k];
                assert(deliveries[k] == d);
                assert(front[d] == posts[d]);
            }
        }
        assert forall|k: int, l: int| 0 <= k < l < deliveries.len() implies deliveries[k]
            < deliveries[l] && posts[deliveries[k]].id@ != posts[deliveries[l]].id@ by {
            let dk = before.deliveries[k];
            assert(deliveries[k] == dk);
            assert(front[dk] == posts[dk]);
            if l < before.deliveries.len() {
                let dl = before.deliveries[l];
                assert(deliveries[l] == dl);
                assert(front[dl] == posts[dl]);
            } else {
                assert(deliveries[l] == last);
                lemma_poll_marks_kept_posts(
                    store,
                    chat_id,
                    filter,
                    only_mark_seen,
                    front,
                    seen_at,
                    dk,
                );
            }
        }
    }
}

/// In a poll that does not only mark, a post that the filter keeps and that
/// the chat had not seen is delivered: at its own place, or at an earlier place
/// where the listing holds the same post.
pub proof fn lemma_new_posts_are_delivered(
    store: StoreView,
    chat_id: i64,
    filter: Option<PostType>,
    posts: Seq<Post>,
    seen_at: i64,
    i: int,
)
    requires
        0 <= i < posts.len(),
        passes_filter(filter, posts[i].post_type),
        !store.is_seen(chat_id, posts[i].id@),
    ensures
        ({
            let deliveries = poll_posts(store, chat_id, filter, false, posts, seen_at).deliveries;
            exists|k: int|
                0 <= k < deliveries.len() && 0 <= #[trigger] deliveries[k] <= i
                    && posts[deliveries[k]].id@ == posts[i].id@
        }),
    decreases posts.len(),
{
    let front = posts.drop_last();
    let before = poll_posts(store, chat_id, filter, false, front, seen_at);
    let after = poll_posts(store, chat_id, filter, false, posts, seen_at);
    let last = posts.len() - 1;
    if i < last {
        lemma_new_posts_are_delivered(store, chat_id, filter, front, seen_at, i);
        let k = choose|k: int|
            0 <= k < before.deliveries.len() && 0 <= #[trigger] before.deliveries[k] <= i
                && front[before.deliveries[k]].id@ == front[i].id@;
        assert(after.deliveries[k] == before.deliveries[k]);
        assert(front[before.deliveries[k]] == posts[before.deliveries[k]]);
        assert(front[i] == posts[i]);
    } else if before.store.is_seen(chat_id, posts[i].id@) {
        lemma_poll_marks_only_kept_posts(store, chat_id, filter, false, front, seen_at, posts[i].id@);
        let j = choose|j: int|
            0 <= j < front.len() && (#[trigger] front[j]).id@ == posts[i].id@ && passes_filter(
                filter,
                front[j].post_type,
            );
        lemma_new_posts_are_delivered(store, chat_id, filter, front, seen_at, j);
        let k = choose|k: int|
            0 <= k < before.deliveries.len() && 0 <= #[trigger] before.deliveries[k] <= j
                && front[before.deliveries[k]].id@ == front[j].id@;
        assert(after.deliveries[k] == before.deliveries[k]);
        assert(front[before.deliveries[k]] == posts[before.deliveries[k]]);
    } else {
        let k = before.deliveries.len() as int;
        assert(after.deliveries[k] == last);
    }
}

/// Whether every post of the listing is of the subreddit.
pub open spec fn listing_of(posts: Seq<Post>, subreddit: Seq<char>) -> bool {
    forall|i: int| 0 <= i < posts.len() ==> (#[trigger] posts[i]).subreddit@ == subreddit
}

/// Whether the listing holds a post that the filter keeps and the chat has not seen.
pub open spec fn has_new_post(
    store: StoreView,
    chat_id: i64,
    filter: Option<PostType>,
    posts: Seq<Post>,
) -> bool {
    exists|i: int|
        0 <= i < posts.len() && passes_filter(filter, (#[trigger] posts[i]).post_type)
            && !store.is_seen(chat_id, posts[i].id@)
}

/// A poll of a subreddit's listing that holds a new post leaves the chat with
/// a seen post of that subreddit.
pub proof fn lemma_poll_starts_subreddit(
    store: StoreView,
    chat_id: i64,
    filter: Option<PostType>,
    only_mark_seen: bool,
    posts: Seq<Post>,
    seen_at: i64,
    subreddit: Seq<char>,
)
    requires
        store.well_formed(),
        store.has_post_table(),
        listing_of(posts, subreddit),
        has_new_post(store, chat_id, filter, posts),
    ensures
        poll_posts(store, chat_id, filter, only_mark_seen, posts, seen_at).store.has_seen_in(
            chat_id,
            subreddit,
        ),
    decreases posts.len(),
{
    let i = choose|i: int|
        0 <= i < posts.len() && passes_filter(filter, (#[trigger] posts[i]).post_type)
            && !store.is_seen(chat_id, posts[i].id@);
    let front = posts.drop_last();
    let before = poll_posts(store, chat_id, filter, only_mark_seen, front, seen_at).store;
    let row = seen_row(chat_id, posts.last(), seen_at);
    assert(listing_of(front, subreddit)) by {
        assert forall|j: int| 0 <= j < front.len() implies (#[trigger] front[j]).subreddit@
            == subreddit by {
            assert(front[j] == posts[j]);
        }
    }
    if i < posts.len() - 1 {
        assert(front[i] == posts[i]);
        lemma_poll_starts_subreddit(store, chat_id, filter, only_mark_seen, front, seen_at, subreddit);
        lemma_seen_in_is_kept(before, row, chat_id, subreddit);
    } else if before.is_seen(chat_id, posts[i].id@) {
        lemma_poll_marks_only_kept_posts(
            store,
            chat_id,
            filter,
            only_mark_seen,
            front,
            seen_at,
            posts[i].id@,
        );
        lemma_poll_starts_subreddit(store, chat_id, filter, only_mark_seen, front, seen_at, subreddit);
        lemma_seen_in_is_kept(before, row, chat_id, subreddit);
    } else {
        assert(posts[posts.len() - 1] == posts.last());
        lemma_seen_in_is_kept(before, row, chat_id, subreddit);
    }
}

/// The first poll of a subscription whose chat has seen no post of the
/// subreddit, under settings that skip the initial send: nothing is delivered,
/// and every post of the listing that the filter keeps is seen afterwards.
pub proof fn lemma_first_poll_only_marks(
    store: StoreView,
    config: Config,
    sub: Subscription,
    posts: Seq<Post>,
    seen_at: i64,
)
    requires
        store.well_formed(),
        store.has_post_table(),
        !store.has_seen_in(sub.chat_id, sub.subreddit@),
        config.skip_initial_send,
    ensures
        poll_subscription(store, config, sub, posts, seen_at).deliveries.len() == 0,
        forall|i: int|
            0 <= i < posts.len() && passes_filter(
                or_setting(sub.filter, config.default_filter),
                (#[trigger] posts[i]).post_type,
            ) ==> poll_subscription(store, config, sub, posts, seen_at).store.is_seen(
                sub.chat_id,
                posts[i].id@,
            ),
{
    let filter = or_setting(sub.filter, config.default_filter);
    lemma_only_marking_delivers_nothing(store, sub.chat_id, filter, posts, seen_at);
    assert forall|i: int|
        0 <= i < posts.len() && passes_filter(
            filter,
            (#[trigger] posts[i]).post_type,
        ) implies poll_subscription(store, config, sub, posts, seen_at).store.is_seen(
        sub.chat_id,
        posts[i].id@,
    ) by {
        lemma_poll_marks_kept_posts(store, sub.chat_id, filter, true, posts, seen_at, i);
    }
}

/// The poll after a first poll that marked a post of the subreddit's listing
/// is an ordinary one: a post that the filter keeps and that the chat has not
/// seen by then is delivered, at its own place in the listing or at an earlier
/// place where the listing holds the same post.
pub proof fn lemma_second_poll_delivers(
    store: StoreView,
    config: Config,
    sub: Subscription,
    first: Seq<Post>,
    first_at: i64,
    second: Seq<Post>,
    second_at: i64,
    i: int,
)
    requires
        store.well_formed(),
        store.has_post_table(),
        listing_of(first, sub.subreddit@),
        has_new_post(store, sub.chat_id, or_setting(sub.filter, config.default_filter), first),
        0 <= i < second.len(),
        passes_filter(or_setting(sub.filter, config.default_filter), second[i].post_type),
        !poll_subscription(store, config, sub, first, first_at).store.is_seen(
            sub.chat_id,
            second[i].id@,
        ),
    ensures
        ({
            let after_first = poll_subscription(store, config, sub, first, first_at).store;
            let deliveries = poll_subscription(after_first, config, sub, second, second_at).deliveries;
            &&& !only_marks_seen(after_first, sub.chat_id, sub.subreddit@, config)
            &&& exists|k: int|
                0 <= k < deliveries.len() && 0 <= #[trigger] deliveries[k] <= i
                    && second[deliveries[k]].id@ == second[i].id@
        }),
{
    let filter = or_setting(sub.filter, config.default_filter);
    let after_first = poll_subscription(store, config, sub, first, first_at).store;
    lemma_poll_starts_subreddit(
        store,
        sub.chat_id,
        filter,
        only_marks_seen(store, sub.chat_id, sub.subreddit@, config),
        first,
        first_at,
        sub.subreddit@,
    );
    lemma_new_posts_are_delivered(after_first, sub.chat_id, filter, second, second_at, i);
    assert(after_first.has_seen_in(sub.chat_id, sub.subreddit@));
    let deliveries = poll_posts(after_first, sub.chat_id, filter, false, second, second_at).deliveries;
    assert(deliveries == poll_subscription(after_first, config, sub, second, second_at).deliveries);
    let k = choose|k: int|
        0 <= k < deliveries.len() && 0 <= #[trigger] deliveries[k] <= i
            && second[deliveries[k]].id@ == second[i].id@;
    assert(0 <= k < deliveries.len() && 0 <= deliveries[k] <= i && second[deliveries[k]].id@
        == second[i].id@);
}

} // verus!
