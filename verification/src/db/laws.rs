//! What holds of the store whatever is done to it.

use crate::db::model::{
    rows_without_named, subscriptions_unique, SeenPostView, StoreView, SubscriptionRowView,
};
use vstd::prelude::*;

verus! {

/// Every row that a filter keeps is a row of the table it was taken from.
pub proof fn lemma_filter_keeps_rows(
    rows: Seq<SubscriptionRowView>,
    keep: spec_fn(SubscriptionRowView) -> bool,
)
    ensures
        forall|i: int|
            0 <= i < rows.filter(keep).len() ==> rows.contains(#[trigger] rows.filter(keep)[i]),
    decreases rows.len(),
{
    reveal(Seq::filter);
    if rows.len() > 0 {
        let front = rows.drop_last();
        lemma_filter_keeps_rows(front, keep);
        assert forall|i: int| 0 <= i < rows.filter(keep).len() implies rows.contains(
            #[trigger] rows.filter(keep)[i],
        ) by {
            if i < front.filter(keep).len() {
                let row = front.filter(keep)[i];
                assert(front.contains(row));
                let k = choose|k: int| 0 <= k < front.len() && front[k] == row;
                assert(rows[k] == row);
            } else {
                assert(rows[rows.len() - 1] == rows.last());
            }
        }
    }
}

/// A filter of a table that keeps its primary key keeps it too.
pub proof fn lemma_filter_unique(
    rows: Seq<SubscriptionRowView>,
    keep: spec_fn(SubscriptionRowView) -> bool,
)
    requires
        subscriptions_unique(rows),
    ensures
        subscriptions_unique(rows.filter(keep)),
    decreases rows.len(),
{
    reveal(Seq::filter);
    if rows.len() > 0 {
        let front = rows.drop_last();
        assert forall|i: int, j: int| 0 <= i < j < front.len() implies !(#[trigger] front[i]).has_key(
            (#[trigger] front[j]).subscription.chat_id,
            front[j].subscription.subreddit,
        ) by {
            assert(rows[i] == front[i] && rows[j] == front[j]);
        }
        lemma_filter_unique(front, keep);
        lemma_filter_keeps_rows(front, keep);
        let kept = rows.filter(keep);
        assert forall|i: int, j: int| 0 <= i < j < kept.len() implies !(#[trigger] kept[i]).has_key(
            (#[trigger] kept[j]).subscription.chat_id,
            kept[j].subscription.subreddit,
        ) by {
            if j < front.filter(keep).len() {
                assert(kept[i] == front.filter(keep)[i] && kept[j] == front.filter(keep)[j]);
            } else {
                let row = front.filter(keep)[i];
                assert(front.contains(row));
                let k = choose|k: int| 0 <= k < front.len() && front[k] == row;
                assert(rows[k] == row);
                assert(rows[rows.len() - 1] == kept[j]);
            }
        }
    }
}

/// Marking a post seen keeps the store well formed.
pub proof fn lemma_mark_seen_well_formed(store: StoreView, row: SeenPostView)
    requires
        store.well_formed(),
        store.has_post_table(),
    ensures
        store.mark_seen(row).well_formed(),
{
    if !store.is_seen(row.chat_id, row.post_id) {
        let after = store.posts.push(row);
        assert forall|i: int, j: int| 0 <= i < j < after.len() implies !(#[trigger] after[i]).has_key(
            (#[trigger] after[j]).post_id,
            after[j].chat_id,
        ) by {
            if j < store.posts.len() {
                assert(after[i] == store.posts[i] && after[j] == store.posts[j]);
            } else {
                assert(after[i] == store.posts[i]);
            }
        }
    }
}

/// Once a post is marked seen for a chat it is seen, and marking any post, for
/// any chat, takes no seen post away.
pub proof fn lemma_seen_is_kept(store: StoreView, row: SeenPostView, chat_id: i64, post_id: Seq<char>)
    ensures
        store.mark_seen(row).is_seen(row.chat_id, row.post_id),
        store.is_seen(chat_id, post_id) ==> store.mark_seen(row).is_seen(chat_id, post_id),
        store.mark_seen(row).is_seen(chat_id, post_id) ==> store.is_seen(chat_id, post_id)
            || row.has_key(post_id, chat_id),
{
    let after = store.mark_seen(row);
    if !store.is_seen(row.chat_id, row.post_id) {
        let n = store.posts.len() as int;
        assert(after.posts[n].has_key(row.post_id, row.chat_id));
        if store.is_seen(chat_id, post_id) {
            let i = choose|i: int|
                0 <= i < store.posts.len() && (#[trigger] store.posts[i]).has_key(post_id, chat_id);
            assert(after.posts[i].has_key(post_id, chat_id));
        }
        if after.is_seen(chat_id, post_id) {
            let i = choose|i: int|
                0 <= i < after.posts.len() && (#[trigger] after.posts[i]).has_key(post_id, chat_id);
            if i < n {
                assert(store.posts[i].has_key(post_id, chat_id));
            }
        }
    }
}

/// A chat that has seen a post of a subreddit has seen one ever after, and a
/// post that is newly marked makes its subreddit one of them.
pub proof fn lemma_seen_in_is_kept(
    store: StoreView,
    row: SeenPostView,
    chat_id: i64,
    subreddit: Seq<char>,
)
    ensures
        store.has_seen_in(chat_id, subreddit) ==> store.mark_seen(row).has_seen_in(
            chat_id,
            subreddit,
        ),
        !store.is_seen(row.chat_id, row.post_id) ==> store.mark_seen(row).has_seen_in(
            row.chat_id,
            row.subreddit,
        ),
{
    let after = store.mark_seen(row);
    if !store.is_seen(row.chat_id, row.post_id) {
        let n = store.posts.len() as int;
        assert(after.posts[n].chat_id == row.chat_id && after.posts[n].subreddit == row.subreddit);
        if store.has_seen_in(chat_id, subreddit) {
            let i = choose|i: int|
                0 <= i < store.posts.len() && (#[trigger] store.posts[i]).chat_id == chat_id
                    && store.posts[i].subreddit == subreddit;
            assert(after.posts[i].chat_id == chat_id && after.posts[i].subreddit == subreddit);
        }
    }
}

/// Marking a post seen a second time changes nothing.
pub proof fn lemma_mark_seen_idempotent(store: StoreView, first: SeenPostView, second: SeenPostView)
    requires
        second.has_key(first.post_id, first.chat_id),
    ensures
        store.mark_seen(first).mark_seen(second) == store.mark_seen(first),
{
    lemma_seen_is_kept(store, first, first.chat_id, first.post_id);
}

/// Writing a subscription keeps the store well formed: no chat ever has two
/// subscriptions to one subreddit.
pub proof fn lemma_put_subscription_well_formed(store: StoreView, row: SubscriptionRowView)
    requires
        store.well_formed(),
        store.has_subscription_table(),
    ensures
        store.put_subscription(row).well_formed(),
        store.put_subscription(row).is_subscribed(
            row.subscription.chat_id,
            row.subscription.subreddit,
        ),
{
    let chat_id = row.subscription.chat_id;
    let subreddit = row.subscription.subreddit;
    let before = store.subscriptions;
    let after = store.put_subscription(row).subscriptions;
    if store.is_subscribed(chat_id, subreddit) {
        let k = choose|k: int| 0 <= k < before.len() && (#[trigger] before[k]).has_key(chat_id, subreddit);
        assert(after[k] == row);
        assert forall|i: int, j: int| 0 <= i < j < after.len() implies !(#[trigger] after[i]).has_key(
            (#[trigger] after[j]).subscription.chat_id,
            after[j].subscription.subreddit,
        ) by {
            assert(!before[i].has_key(before[j].subscription.chat_id, before[j].subscription.subreddit));
        }
    } else {
        assert(after[before.len() as int] == row);
        assert forall|i: int, j: int| 0 <= i < j < after.len() implies !(#[trigger] after[i]).has_key(
            (#[trigger] after[j]).subscription.chat_id,
            after[j].subscription.subreddit,
        ) by {
            if j < before.len() {
                assert(after[i] == before[i] && after[j] == before[j]);
            } else {
                assert(after[i] == before[i]);
            }
        }
    }
}

/// An unsubscribe command keeps the store well formed.
pub proof fn lemma_unsubscribe_well_formed(store: StoreView, chat_id: i64, pattern: Seq<char>)
    requires
        store.well_formed(),
    ensures
        store.unsubscribe(chat_id, pattern).well_formed(),
{
    let keep = |row: SubscriptionRowView| !row.is_named_by(chat_id, pattern);
    lemma_filter_unique(store.subscriptions, keep);
    store.subscriptions.lemma_filter_len(keep);
    assert(store.subscriptions.filter(keep) == rows_without_named(
        store.subscriptions,
        chat_id,
        pattern,
    ));
}

/// Migration keeps the store well formed.
pub proof fn lemma_migrated_well_formed(store: StoreView)
    requires
        store.well_formed(),
    ensures
        store.migrated().well_formed(),
        store.migrated().migrated() == store.migrated(),
{
}

/// A post that is seen for a chat stays seen whatever is done to the store: a
/// post is marked, a subscription is written or removed, the store is migrated
/// or told how to treat overwrites.
pub proof fn lemma_seen_forever(
    store: StoreView,
    chat_id: i64,
    post_id: Seq<char>,
    marked: SeenPostView,
    written: SubscriptionRowView,
    leaving_chat: i64,
    pattern: Seq<char>,
    reject: bool,
)
    requires
        store.is_seen(chat_id, post_id),
    ensures
        store.mark_seen(marked).is_seen(chat_id, post_id),
        store.put_subscription(written).is_seen(chat_id, post_id),
        store.unsubscribe(leaving_chat, pattern).is_seen(chat_id, post_id),
        store.migrated().is_seen(chat_id, post_id),
        (StoreView { reject_overwrites: reject, ..store }).is_seen(chat_id, post_id),
{
    lemma_seen_is_kept(store, marked, chat_id, post_id);
    let i = choose|i: int|
        0 <= i < store.posts.len() && (#[trigger] store.posts[i]).has_key(post_id, chat_id);
    assert(store.put_subscription(written).posts[i].has_key(post_id, chat_id));
    assert(store.unsubscribe(leaving_chat, pattern).posts[i].has_key(post_id, chat_id));
    assert(store.migrated().posts[i].has_key(post_id, chat_id));
    assert((StoreView { reject_overwrites: reject, ..store }).posts[i].has_key(post_id, chat_id));
}

} // verus!
