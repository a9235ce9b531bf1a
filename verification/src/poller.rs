//! The poll cycle: which posts of a listing are new for a chat, which of them
//! are delivered, and which are only marked seen.

pub mod laws;

use crate::clock::unix_now;
use crate::config::{default_time, default_time_period, Config, DEFAULT_LIMIT};
use crate::db::laws::lemma_mark_seen_well_formed;
use crate::poller::laws::{
    lemma_only_marking_delivers_nothing, lemma_poll_keeps_store, lemma_poll_marks_kept_posts,
};
use crate::db::model::StoreView;
use crate::db::store::{seen_row, Database, StoreError};
use crate::reddit::kinds::{PostType, TopPostsTimePeriod};
use crate::reddit::types::Post;
use crate::types::Subscription;
use vstd::prelude::*;

verus! {

/// What a fetch asks of the content source, and what is kept of its answer.
#[derive(Debug, Clone, Copy, PartialEq, Eq, Structural)]
pub struct FetchParams {
    pub limit: u32,
    pub time: TopPostsTimePeriod,
    pub filter: Option<PostType>,
}

/// An override where there is one, else the setting, else nothing.
pub open spec fn or_setting<T>(over: Option<T>, setting: Option<T>) -> Option<T> {
    if over is Some {
        over
    } else {
        setting
    }
}

/// The values in force: the override of the subscription or command, else the
/// setting, else the built-in default. There is no built-in filter.
pub open spec fn params_in_force(
    limit: Option<u32>,
    time: Option<TopPostsTimePeriod>,
    filter: Option<PostType>,
    config: Config,
) -> FetchParams {
    FetchParams {
        limit: match or_setting(limit, config.default_limit) {
            Some(l) => l,
            None => DEFAULT_LIMIT,
        },
        time: match or_setting(time, config.default_time) {
            Some(t) => t,
            None => default_time_period(),
        },
        filter: or_setting(filter, config.default_filter),
    }
}

pub fn effective_params(
    limit: Option<u32>,
    time: Option<TopPostsTimePeriod>,
    filter: Option<PostType>,
    config: &Config,
) -> (r: FetchParams)
    ensures
        r == params_in_force(limit, time, filter, *config),
{
    let limit = match limit {
        Some(l) => l,
        None => match config.default_limit {
            Some(l) => l,
            None => DEFAULT_LIMIT,
        },
    };
    let time = match time {
        Some(t) => t,
        None => match config.default_time {
            Some(t) => t,
            None => default_time(),
        },
    };
    let filter = match filter {
        Some(f) => Some(f),
        None => config.default_filter,
    };
    FetchParams { limit, time, filter }
}

/// Whether a post of this type is kept under a filter: no filter keeps all.
pub open spec fn passes_filter(filter: Option<PostType>, post_type: PostType) -> bool {
    filter is None || filter == Some(post_type)
}

pub fn matches_filter(filter: Option<PostType>, post_type: PostType) -> (r: bool)
    ensures
        r == passes_filter(filter, post_type),
{
    match filter {
        Some(f) => f == post_type,
        None => true,
    }
}

/// What is done with one post of a listing.
#[derive(Debug, Clone, Copy, PartialEq, Eq, Structural)]
pub enum PostAction {
    /// Nothing: the filter drops the post, or it was seen before.
    Skip,
    /// The post is marked seen and not delivered.
    MarkSeen,
    /// The post is delivered and then, whether or not that worked, marked seen.
    Deliver,
}

/// The action for a post, given whether it was seen before.
pub open spec fn post_action(
    filter: Option<PostType>,
    post_type: PostType,
    seen: bool,
    only_mark_seen: bool,
) -> PostAction {
    if !passes_filter(filter, post_type) || seen {
        PostAction::Skip
    } else if only_mark_seen {
        PostAction::MarkSeen
    } else {
        PostAction::Deliver
    }
}

/// Whether the first poll of a subscription only marks what it finds: the chat
/// has seen no post of the subreddit yet, and the settings ask for it.
pub open spec fn only_marks_seen(store: StoreView, chat_id: i64, subreddit: Seq<char>, config: Config) -> bool {
    !store.has_seen_in(chat_id, subreddit) && config.skip_initial_send
}

/// Decides what is done with one post. The store is asked only about a post
/// that the filter keeps.
pub fn check_post_newness(
    db: &Database,
    chat_id: i64,
    filter: Option<PostType>,
    post: &Post,
    only_mark_seen: bool,
) -> (r: Result<PostAction, StoreError>)
    requires
        db@.well_formed(),
    ensures
        !passes_filter(filter, post.post_type) ==> r == Ok::<PostAction, StoreError>(
            PostAction::Skip,
        ),
        passes_filter(filter, post.post_type) && !db@.has_post_table() ==> r == Err::<
            PostAction,
            StoreError,
        >(StoreError::NoSuchTable),
        passes_filter(filter, post.post_type) && db@.has_post_table() ==> r == Ok::<
            PostAction,
            StoreError,
        >(post_action(filter, post.post_type, db@.is_seen(chat_id, post.id@), only_mark_seen)),
{
    if !matches_filter(filter, post.post_type) {
        return Ok(PostAction::Skip);
    }
    match db.is_post_seen(chat_id, post) {
        Ok(seen) => {
            if seen {
                Ok(PostAction::Skip)
            } else if only_mark_seen {
                Ok(PostAction::MarkSeen)
            } else {
                Ok(PostAction::Deliver)
            }
        },
        Err(e) => Err(e),
    }
}

/// The store after a listing was handled, and the places in the listing of the
/// posts that were delivered, in the order of delivery.
pub struct PollOutcome {
    pub store: StoreView,
    pub deliveries: Seq<int>,
}

/// Handles the posts of a listing one after the other, in the listing's order.
pub open spec fn poll_posts(
    store: StoreView,
    chat_id: i64,
    filter: Option<PostType>,
    only_mark_seen: bool,
    posts: Seq<Post>,
    seen_at: i64,
) -> PollOutcome
    decreases posts.len(),
{
    if posts.len() == 0 {
        PollOutcome { store, deliveries: Seq::empty() }
    } else {
        let before = poll_posts(store, chat_id, filter, only_mark_seen, posts.drop_last(), seen_at);
        let post = posts.last();
        match post_action(
            filter,
            post.post_type,
            before.store.is_seen(chat_id, post.id@),
            only_mark_seen,
        ) {
            PostAction::Skip => before,
            PostAction::MarkSeen => PollOutcome {
                store: before.store.mark_seen(seen_row(chat_id, post, seen_at)),
                deliveries: before.deliveries,
            },
            PostAction::Deliver => PollOutcome {
                store: before.store.mark_seen(seen_row(chat_id, post, seen_at)),
                deliveries: before.deliveries.push(posts.len() - 1),
            },
        }
    }
}

/// One poll of a subscription on a listing: the subscription's filter, or the
/// setting's, decides what is kept, and the first poll only marks if asked to.
pub open spec fn poll_subscription(
    store: StoreView,
    config: Config,
    sub: Subscription,
    posts: Seq<Post>,
    seen_at: i64,
) -> PollOutcome {
    poll_posts(
        store,
        sub.chat_id,
        or_setting(sub.filter, config.default_filter),
        only_marks_seen(store, sub.chat_id, sub.subreddit@, config),
        posts,
        seen_at,
    )
}

/// The places as the integers they are.
pub open spec fn places(deliveries: Seq<usize>) -> Seq<int> {
    deliveries.map_values(|i: usize| i as int)
}

/// Handles the listing that was fetched for a subscription, marking posts seen
/// at the given time, and returns the places of the posts to deliver. Where the
/// fetch failed (`None`) nothing is done and nothing is asked of the store.
pub fn check_new_posts_for_subscription_at(
    db: &mut Database,
    config: &Config,
    sub: &Subscription,
    fetched: Option<&Vec<Post>>,
    seen_at: i64,
) -> (r: Result<Vec<usize>, StoreError>)
    requires
        old(db)@.well_formed(),
    ensures
        final(db)@.well_formed(),
        fetched is None ==> r is Ok && r->Ok_0@.len() == 0 && final(db)@ == old(db)@,
        fetched is Some && !old(db)@.has_post_table() ==> r is Err && r->Err_0
            == StoreError::NoSuchTable && final(db)@ == old(db)@,
        fetched is Some && old(db)@.has_post_table() ==> r is Ok && ({
            let outcome = poll_subscription(old(db)@, *config, *sub, fetched->0@, seen_at);
            final(db)@ == outcome.store && places(r->Ok_0@) == outcome.deliveries
        }),
        r is Ok && only_marks_seen(old(db)@, sub.chat_id, sub.subreddit@, *config) ==> r->Ok_0@.len()
            == 0,
        r is Ok && fetched is Some ==> forall|i: int|
            0 <= i < fetched->0@.len() && passes_filter(
                or_setting(sub.filter, config.default_filter),
                (#[trigger] fetched->0@[i]).post_type,
            ) ==> final(db)@.is_seen(sub.chat_id, fetched->0@[i].id@),
        forall|c: i64, p: Seq<char>| old(db)@.is_seen(c, p) ==> #[trigger] final(db)@.is_seen(c, p),
{
    proof {
        if fetched is Some && db@.has_post_table() {
            let filter = or_setting(sub.filter, config.default_filter);
            let only = only_marks_seen(db@, sub.chat_id, sub.subreddit@, *config);
            lemma_poll_keeps_store(db@, sub.chat_id, filter, only, fetched->0@, seen_at);
            if only {
                lemma_only_marking_delivers_nothing(db@, sub.chat_id, filter, fetched->0@, seen_at);
            }
            assert forall|i: int|
                0 <= i < fetched->0@.len() && passes_filter(
                    filter,
                    (#[trigger] fetched->0@[i]).post_type,
                ) implies poll_posts(db@, sub.chat_id, filter, only, fetched->0@, seen_at).store.is_seen(
                sub.chat_id,
                fetched->0@[i].id@,
            ) by {
                lemma_poll_marks_kept_posts(db@, sub.chat_id, filter, only, fetched->0@, seen_at, i);
            }
        }
    }
    let posts = match fetched {
        Some(posts) => posts,
        None => {
            return Ok(Vec::new());
        },
    };
    let is_new_subreddit = match db.existing_posts_for_subreddit(
        sub.chat_id,
        sub.subreddit.as_str(),
    ) {
        Ok(existing) => !existing,
        Err(e) => {
            return Err(e);
        },
    };
    let only_mark_seen = is_new_subreddit && config.skip_initial_send;
    let filter = match sub.filter {
        Some(f) => Some(f),
        None => config.default_filter,
    };
    let chat_id = sub.chat_id;
    let ghost start = db@;
    let mut deliveries: Vec<usize> = Vec::new();
    let mut i: usize = 0;
    proof {
        assert(posts@.take(0) =~= Seq::empty());
        assert(places(deliveries@) =~= Seq::empty());
    }
    while i < posts.len()
        invariant
            i <= posts.len(),
            db@.well_formed(),
            db@.has_post_table(),
            db@ == poll_posts(start, chat_id, filter, only_mark_seen, posts@.take(i as int), seen_at).store,
            places(deliveries@) == poll_posts(
                start,
                chat_id,
                filter,
                only_mark_seen,
                posts@.take(i as int),
                seen_at,
            ).deliveries,
        decreases posts.len() - i,
    {
        proof {
            assert(posts@.take(i + 1).drop_last() =~= posts@.take(i as int));
            assert(posts@.take(i + 1).last() == posts@[i as int]);
        }
        let post = &posts[i];
        let action = match check_post_newness(db, chat_id, filter, post, only_mark_seen) {
            Ok(action) => action,
            Err(e) => {
                return Err(e);
            },
        };
        match action {
            PostAction::Skip => {},
            PostAction::MarkSeen => {
                proof {
                    lemma_mark_seen_well_formed(db@, seen_row(chat_id, *post, seen_at));
                }
                let _ = db.mark_post_seen_at(chat_id, post, seen_at);
            },
            PostAction::Deliver => {
                proof {
                    lemma_mark_seen_well_formed(db@, seen_row(chat_id, *post, seen_at));
                    assert(places(deliveries@.push(i)) =~= places(deliveries@).push(i as int));
                }
                deliveries.push(i);
                let _ = db.mark_post_seen_at(chat_id, post, seen_at);
            },
        }
        i += 1;
    }
    proof {
        assert(posts@.take(i as int) =~= posts@);
    }
    Ok(deliveries)
}

/// Handles the listing that was fetched for a subscription, marking posts seen
/// at the current time.
pub fn check_new_posts_for_subscription(
    db: &mut Database,
    config: &Config,
    sub: &Subscription,
    fetched: Option<&Vec<Post>>,
) -> (r: Result<Vec<usize>, StoreError>)
    requires
        old(db)@.well_formed(),
    ensures
        final(db)@.well_formed(),
        fetched is None ==> r is Ok && r->Ok_0@.len() == 0 && final(db)@ == old(db)@,
        fetched is Some && !old(db)@.has_post_table() ==> r is Err && r->Err_0
            == StoreError::NoSuchTable && final(db)@ == old(db)@,
        fetched is Some && old(db)@.has_post_table() ==> r is Ok && exists|seen_at: i64|
            {
                let outcome = #[trigger] poll_subscription(
                    old(db)@,
                    *config,
                    *sub,
                    fetched->0@,
                    seen_at,
                );
                final(db)@ == outcome.store && places(r->Ok_0@) == outcome.deliveries
            },
        r is Ok && only_marks_seen(old(db)@, sub.chat_id, sub.subreddit@, *config) ==> r->Ok_0@.len()
            == 0,
        r is Ok && fetched is Some ==> forall|i: int|
            0 <= i < fetched->0@.len() && passes_filter(
                or_setting(sub.filter, config.default_filter),
                (#[trigger] fetched->0@[i]).post_type,
            ) ==> final(db)@.is_seen(sub.chat_id, fetched->0@[i].id@),
        forall|c: i64, p: Seq<char>| old(db)@.is_seen(c, p) ==> #[trigger] final(db)@.is_seen(c, p),
{
    let now = unix_now();
    check_new_posts_for_subscription_at(db, config, sub, fetched, now)
}

} // verus!
