//! The store as it runs: rows held in memory, every operation checked against
//! the model.

use crate::clock::unix_now;
use crate::config::Config;
use crate::db::laws::{
    lemma_mark_seen_well_formed, lemma_put_subscription_well_formed, lemma_seen_is_kept,
    lemma_unsubscribe_well_formed,
};
use crate::db::model::{
    rows_of_chat, rows_without_named, subscriptions_in, SeenPostView, StoreView,
    SubscriptionRowView,
};
use crate::reddit::types::Post;
use crate::text::is_like;
use crate::types::{Subscription, SubscriptionArgs, SubscriptionView};
use vstd::prelude::*;

verus! {

/// Why the store refused an operation.
#[derive(Debug, Clone, Copy, PartialEq, Eq, Structural)]
pub enum StoreError {
    /// The table that the operation works on is not there: the store was not migrated.
    NoSuchTable,
    /// The chat has a subscription to the subreddit already, and the store
    /// rejects overwrites.
    Conflict,
}

/// A record that a post was handled for a chat.
#[derive(Debug)]
pub struct SeenPost {
    pub post_id: String,
    pub chat_id: i64,
    pub subreddit: String,
    pub seen_at: i64,
}

/// A subscription with the time at which it was made.
#[derive(Debug)]
pub struct SubscriptionRow {
    pub subscription: Subscription,
    pub created_at: i64,
}

impl View for SeenPost {
    type V = SeenPostView;

    open spec fn view(&self) -> SeenPostView {
        SeenPostView {
            post_id: self.post_id@,
            chat_id: self.chat_id,
            subreddit: self.subreddit@,
            seen_at: self.seen_at,
        }
    }
}

impl View for SubscriptionRow {
    type V = SubscriptionRowView;

    open spec fn view(&self) -> SubscriptionRowView {
        SubscriptionRowView { subscription: self.subscription@, created_at: self.created_at }
    }
}

/// The views of a list of subscriptions.
pub open spec fn subscription_views(subs: Seq<Subscription>) -> Seq<SubscriptionView> {
    subs.map_values(|s: Subscription| s@)
}

/// The row that marks `post` seen for a chat at a time.
pub open spec fn seen_row(chat_id: i64, post: Post, seen_at: i64) -> SeenPostView {
    SeenPostView { post_id: post.id@, chat_id, subreddit: post.subreddit@, seen_at }
}

/// The row that a subscribe command makes for a chat at a time.
pub open spec fn subscription_row(
    chat_id: i64,
    args: SubscriptionArgs,
    created_at: i64,
) -> SubscriptionRowView {
    SubscriptionRowView { subscription: args@.for_chat(chat_id), created_at }
}

/// The store of subscriptions and seen posts.
#[derive(Debug)]
pub struct Database {
    subscriptions: Vec<SubscriptionRow>,
    posts: Vec<SeenPost>,
    schema_version: u8,
    reject_overwrites: bool,
}

impl View for Database {
    type V = StoreView;

    closed spec fn view(&self) -> StoreView {
        StoreView {
            subscriptions: self.subscriptions@.map_values(|row: SubscriptionRow| row@),
            posts: self.posts@.map_values(|row: SeenPost| row@),
            schema_version: self.schema_version as nat,
            reject_overwrites: self.reject_overwrites,
        }
    }
}

impl Database {
    /// Opens a store that has no table and no row yet, and that rejects a second
    /// subscription of a chat to a subreddit.
    pub fn open(config: &Config) -> (r: Result<Database, StoreError>)
        ensures
            r is Ok,
            r->Ok_0@ == StoreView::empty(true),
            r->Ok_0@.well_formed(),
    {
        let db = Database {
            subscriptions: Vec::new(),
            posts: Vec::new(),
            schema_version: 0,
            reject_overwrites: true,
        };
        assert(db@.subscriptions =~= Seq::empty());
        assert(db@.posts =~= Seq::empty());
        Ok(db)
    }

    /// Brings the schema to its latest version; the rows stay as they are.
    pub fn migrate(&mut self) -> (r: Result<(), StoreError>)
        requires
            old(self)@.well_formed(),
        ensures
            final(self)@.well_formed(),
            r is Ok,
            final(self)@ == old(self)@.migrated(),
    {
        self.schema_version = 2;
        Ok(())
    }

    /// Chooses what a subscribe command does where the subscription exists:
    /// fail with `Conflict`, or replace it.
    pub fn set_reject_overwrites(&mut self, reject: bool)
        requires
            old(self)@.well_formed(),
        ensures
            final(self)@.well_formed(),
            final(self)@ == (StoreView { reject_overwrites: reject, ..old(self)@ }),
    {
        self.reject_overwrites = reject;
    }

    fn find_post(&self, chat_id: i64, post_id: &String) -> (r: Option<usize>)
        requires
            self@.well_formed(),
        ensures
            r is Some == self@.is_seen(chat_id, post_id@),
            r is Some ==> r->0 < self.posts.len() && self.posts@[r->0 as int]@.has_key(
                post_id@,
                chat_id,
            ),
    {
        let mut i: usize = 0;
        while i < self.posts.len()
            invariant
                i <= self.posts.len(),
                forall|j: int| 0 <= j < i ==> !(#[trigger] self@.posts[j]).has_key(post_id@, chat_id),
            decreases self.posts.len() - i,
        {
            if self.posts[i].chat_id == chat_id && self.posts[i].post_id == *post_id {
                assert(self@.posts[i as int].has_key(post_id@, chat_id));
                return Some(i);
            }
            i += 1;
        }
        None
    }

    /// Whether the post has been marked seen for the chat.
    pub fn is_post_seen(&self, chat_id: i64, post: &Post) -> (r: Result<bool, StoreError>)
        requires
            self@.well_formed(),
        ensures
            self@.has_post_table() ==> r == Ok::<bool, StoreError>(self@.is_seen(chat_id, post.id@)),
            !self@.has_post_table() ==> r == Err::<bool, StoreError>(StoreError::NoSuchTable),
    {
        if self.schema_version < 1 {
            return Err(StoreError::NoSuchTable);
        }
        Ok(self.find_post(chat_id, &post.id).is_some())
    }

    /// Whether any post of the subreddit has been marked seen for the chat.
    pub fn existing_posts_for_subreddit(&self, chat_id: i64, subreddit: &str) -> (r: Result<
        bool,
        StoreError,
    >)
        requires
            self@.well_formed(),
        ensures
            self@.has_post_table() ==> r == Ok::<bool, StoreError>(
                self@.has_seen_in(chat_id, subreddit@),
            ),
            !self@.has_post_table() ==> r == Err::<bool, StoreError>(StoreError::NoSuchTable),
    {
        if self.schema_version < 1 {
            return Err(StoreError::NoSuchTable);
        }
        let mut i: usize = 0;
        while i < self.posts.len()
            invariant
                i <= self.posts.len(),
                self@.has_post_table(),
                forall|j: int|
                    0 <= j < i ==> !((#[trigger] self@.posts[j]).chat_id == chat_id
                        && self@.posts[j].subreddit == subreddit@),
            decreases self.posts.len() - i,
        {
            if self.posts[i].chat_id == chat_id && crate::text::str_eq(
                self.posts[i].subreddit.as_str(),
                subreddit,
            ) {
                assert(self@.posts[i as int].chat_id == chat_id && self@.posts[i as int].subreddit
                    == subreddit@);
                return Ok(true);
            }
            i += 1;
        }
        Ok(false)
    }

    /// Writes a row into the table of seen posts. A post that is seen already
    /// for the chat is no error and changes nothing.
    pub fn record_seen_post(&mut self, row: SeenPost) -> (r: Result<(), StoreError>)
        requires
            old(self)@.well_formed(),
        ensures
            final(self)@.well_formed(),
            old(self)@.has_post_table() ==> r is Ok && final(self)@ == old(self)@.mark_seen(row@),
            !old(self)@.has_post_table() ==> r == Err::<(), StoreError>(StoreError::NoSuchTable)
                && final(self)@ == old(self)@,
            r is Ok ==> final(self)@.is_seen(row.chat_id, row.post_id@),
            forall|chat_id: i64, post_id: Seq<char>|
                old(self)@.is_seen(chat_id, post_id) ==> #[trigger] final(self)@.is_seen(
                    chat_id,
                    post_id,
                ),
    {
        proof {
            lemma_seen_is_kept(self@, row@, row.chat_id, row.post_id@);
            assert forall|chat_id: i64, post_id: Seq<char>|
                self@.is_seen(chat_id, post_id) implies #[trigger] self@.mark_seen(row@).is_seen(
                chat_id,
                post_id,
            ) by {
                lemma_seen_is_kept(self@, row@, chat_id, post_id);
            }
        }
        if self.schema_version < 1 {
            return Err(StoreError::NoSuchTable);
        }
        if self.find_post(row.chat_id, &row.post_id).is_none() {
            proof {
                lemma_mark_seen_well_formed(self@, row@);
                assert(self.posts@.push(row).map_values(|r: SeenPost| r@) =~= self@.posts.push(
                    row@,
                ));
            }
            self.posts.push(row);
        }
        Ok(())
    }

    /// Marks the post seen for the chat at the given time. Marking a post that
    /// is seen already is no error and changes nothing.
    pub fn mark_post_seen_at(&mut self, chat_id: i64, post: &Post, seen_at: i64) -> (r: Result<
        (),
        StoreError,
    >)
        requires
            old(self)@.well_formed(),
        ensures
            final(self)@.well_formed(),
            old(self)@.has_post_table() ==> r is Ok && final(self)@ == old(self)@.mark_seen(
                seen_row(chat_id, *post, seen_at),
            ),
            !old(self)@.has_post_table() ==> r == Err::<(), StoreError>(StoreError::NoSuchTable)
                && final(self)@ == old(self)@,
            r is Ok ==> final(self)@.is_seen(chat_id, post.id@),
            forall|c: i64, p: Seq<char>|
                old(self)@.is_seen(c, p) ==> #[trigger] final(self)@.is_seen(c, p),
    {
        self.record_seen_post(
            SeenPost {
                post_id: post.id.clone(),
                chat_id,
                subreddit: post.subreddit.clone(),
                seen_at,
            },
        )
    }

    /// Marks the post seen for the chat, at the current time.
    pub fn mark_post_seen(&mut self, chat_id: i64, post: &Post) -> (r: Result<(), StoreError>)
        requires
            old(self)@.well_formed(),
        ensures
            final(self)@.well_formed(),
            old(self)@.has_post_table() ==> r is Ok && exists|seen_at: i64|
                final(self)@ == old(self)@.mark_seen(#[trigger] seen_row(chat_id, *post, seen_at)),
            !old(self)@.has_post_table() ==> r == Err::<(), StoreError>(StoreError::NoSuchTable)
                && final(self)@ == old(self)@,
            r is Ok ==> final(self)@.is_seen(chat_id, post.id@),
            forall|c: i64, p: Seq<char>|
                old(self)@.is_seen(c, p) ==> #[trigger] final(self)@.is_seen(c, p),
    {
        let now = unix_now();
        self.mark_post_seen_at(chat_id, post, now)
    }

    fn find_subscription(&self, chat_id: i64, subreddit: &String) -> (r: Option<usize>)
        requires
            self@.well_formed(),
        ensures
            r is Some == self@.is_subscribed(chat_id, subreddit@),
            r is Some ==> r->0 < self.subscriptions.len() && self.subscriptions@[r->0 as int]@.has_key(
                chat_id,
                subreddit@,
            ),
    {
        let mut i: usize = 0;
        while i < self.subscriptions.len()
            invariant
                i <= self.subscriptions.len(),
                forall|j: int|
                    0 <= j < i ==> !(#[trigger] self@.subscriptions[j]).has_key(chat_id, subreddit@),
            decreases self.subscriptions.len() - i,
        {
            if self.subscriptions[i].subscription.chat_id == chat_id
                && self.subscriptions[i].subscription.subreddit == *subreddit {
                assert(self@.subscriptions[i as int].has_key(chat_id, subreddit@));
                return Some(i);
            }
            i += 1;
        }
        None
    }

    /// Writes the chat's subscription, made at the given time. Where the chat is
    /// subscribed to the subreddit already, a store that rejects overwrites
    /// fails with `Conflict` and changes nothing; another one replaces the row.
    pub fn subscribe_at(&mut self, chat_id: i64, args: &SubscriptionArgs, created_at: i64) -> (r:
        Result<(), StoreError>)
        requires
            old(self)@.well_formed(),
        ensures
            final(self)@.well_formed(),
            Database::subscribe_outcome(old(self)@, chat_id, args@.subreddit) == r,
            r is Ok ==> final(self)@ == old(self)@.put_subscription(
                subscription_row(chat_id, *args, created_at),
            ),
            r is Err ==> final(self)@ == old(self)@,
            r is Ok ==> final(self)@.is_subscribed(chat_id, args@.subreddit),
    {
        if self.schema_version < 2 {
            return Err(StoreError::NoSuchTable);
        }
        let row = SubscriptionRow {
            subscription: Subscription {
                chat_id,
                subreddit: args.subreddit.clone(),
                limit: args.limit,
                time: args.time,
                filter: args.filter,
            },
            created_at,
        };
        proof {
            lemma_put_subscription_well_formed(self@, row@);
        }
        match self.find_subscription(chat_id, &args.subreddit) {
            Some(i) => {
                if self.reject_overwrites {
                    return Err(StoreError::Conflict);
                }
                let ghost before = self@;
                proof {
                    assert forall|j: int| 0 <= j < before.subscriptions.len() && j != i implies !(
                    #[trigger] before.subscriptions[j]).has_key(chat_id, args.subreddit@) by {
                        if j < i {
                            assert(!before.subscriptions[j].has_key(
                                before.subscriptions[i as int].subscription.chat_id,
                                before.subscriptions[i as int].subscription.subreddit,
                            ));
                        } else {
                            assert(!before.subscriptions[i as int].has_key(
                                before.subscriptions[j].subscription.chat_id,
                                before.subscriptions[j].subscription.subreddit,
                            ));
                        }
                    }
                    assert(self.subscriptions@.update(i as int, row).map_values(
                        |r: SubscriptionRow| r@,
                    ) =~= before.put_subscription(row@).subscriptions);
                }
                self.subscriptions.set(i, row);
            },
            None => {
                proof {
                    assert(self.subscriptions@.push(row).map_values(|r: SubscriptionRow| r@)
                        =~= self@.subscriptions.push(row@));
                }
                self.subscriptions.push(row);
            },
        }
        Ok(())
    }

    /// Whether a subscribe command succeeds, and why not.
    pub open spec fn subscribe_outcome(store: StoreView, chat_id: i64, subreddit: Seq<char>) -> Result<
        (),
        StoreError,
    > {
        if !store.has_subscription_table() {
            Err(StoreError::NoSuchTable)
        } else if store.is_subscribed(chat_id, subreddit) && store.reject_overwrites {
            Err(StoreError::Conflict)
        } else {
            Ok(())
        }
    }

    /// Writes the chat's subscription, made at the current time.
    pub fn subscribe(&mut self, chat_id: i64, args: &SubscriptionArgs) -> (r: Result<(), StoreError>)
        requires
            old(self)@.well_formed(),
        ensures
            final(self)@.well_formed(),
            Database::subscribe_outcome(old(self)@, chat_id, args@.subreddit) == r,
            r is Ok ==> exists|created_at: i64|
                final(self)@ == old(self)@.put_subscription(
                    #[trigger] subscription_row(chat_id, *args, created_at),
                ),
            r is Err ==> final(self)@ == old(self)@,
            r is Ok ==> final(self)@.is_subscribed(chat_id, args@.subreddit),
    {
        let now = unix_now();
        self.subscribe_at(chat_id, args, now)
    }

    /// Removes the chat's subscriptions whose subreddit matches the pattern,
    /// the case of ASCII letters set aside, and says whether there was one.
    pub fn unsubscribe(&mut self, chat_id: i64, subreddit: &str) -> (r: Result<bool, StoreError>)
        requires
            old(self)@.well_formed(),
        ensures
            final(self)@.well_formed(),
            old(self)@.has_subscription_table() ==> r == Ok::<bool, StoreError>(
                old(self)@.names_some(chat_id, subreddit@),
            ) && final(self)@ == old(self)@.unsubscribe(chat_id, subreddit@),
            !old(self)@.has_subscription_table() ==> r == Err::<bool, StoreError>(
                StoreError::NoSuchTable,
            ) && final(self)@ == old(self)@,
    {
        if self.schema_version < 2 {
            return Err(StoreError::NoSuchTable);
        }
        let ghost before = self@;
        let mut deleted = false;
        let mut i: usize = 0;
        let ghost mut k: int = 0;
        proof {
            reveal(Seq::filter);
            assert(before.subscriptions.take(0) =~= Seq::empty());
            assert(before.subscriptions.skip(0) =~= before.subscriptions);
        }
        while i < self.subscriptions.len()
            invariant
                0 <= k <= before.subscriptions.len(),
                i <= self.subscriptions.len(),
                self.subscriptions.len() - i == before.subscriptions.len() - k,
                i == rows_without_named(before.subscriptions.take(k), chat_id, subreddit@).len(),
                self@.subscriptions == rows_without_named(
                    before.subscriptions.take(k),
                    chat_id,
                    subreddit@,
                ) + before.subscriptions.skip(k),
                self@.posts == before.posts,
                self@.schema_version == before.schema_version,
                self@.reject_overwrites == before.reject_overwrites,
                deleted == exists|j: int|
                    0 <= j < k && (#[trigger] before.subscriptions[j]).is_named_by(
                        chat_id,
                        subreddit@,
                    ),
            decreases self.subscriptions.len() - i,
        {
            let ghost kept = rows_without_named(before.subscriptions.take(k), chat_id, subreddit@);
            proof {
                reveal(Seq::filter);
                assert(before.subscriptions.take(k + 1).drop_last() =~= before.subscriptions.take(
                    k,
                ));
                assert(before.subscriptions.take(k + 1).last() == before.subscriptions[k]);
                assert(self@.subscriptions[i as int] == before.subscriptions[k]);
            }
            let named = self.subscriptions[i].subscription.chat_id == chat_id && is_like(
                subreddit,
                self.subscriptions[i].subscription.subreddit.as_str(),
            );
            if named {
                let ghost rows = self.subscriptions@;
                let ghost views = self@.subscriptions;
                self.subscriptions.remove(i);
                deleted = true;
                proof {
                    assert(views.len() == rows.len());
                    assert(rows.remove(i as int).map_values(|r: SubscriptionRow| r@)
                        =~= views.remove(i as int));
                    assert(views.remove(i as int) =~= kept + before.subscriptions.skip(k + 1));
                }
            } else {
                proof {
                    assert(self@.subscriptions =~= kept.push(before.subscriptions[k])
                        + before.subscriptions.skip(k + 1));
                }
                i += 1;
            }
            proof {
                k = k + 1;
            }
        }
        proof {
            assert(before.subscriptions.take(k) =~= before.subscriptions);
            assert(self@.subscriptions =~= rows_without_named(
                before.subscriptions,
                chat_id,
                subreddit@,
            ));
            lemma_unsubscribe_well_formed(before, chat_id, subreddit@);
        }
        Ok(deleted)
    }

    /// The rows of the table of subscriptions, in their order.
    pub fn subscription_rows(&self) -> (rows: &Vec<SubscriptionRow>)
        ensures
            rows@.map_values(|row: SubscriptionRow| row@) == self@.subscriptions,
    {
        &self.subscriptions
    }

    /// The chat's subscriptions, in the order of the table.
    pub fn get_subscriptions_for_chat(&self, chat_id: i64) -> (r: Result<
        Vec<Subscription>,
        StoreError,
    >)
        requires
            self@.well_formed(),
        ensures
            self@.has_subscription_table() ==> r is Ok && subscription_views(r->Ok_0@)
                == self@.subscriptions_of(chat_id),
            !self@.has_subscription_table() ==> r is Err && r->Err_0 == StoreError::NoSuchTable,
    {
        if self.schema_version < 2 {
            return Err(StoreError::NoSuchTable);
        }
        let mut out: Vec<Subscription> = Vec::new();
        let mut i: usize = 0;
        proof {
            reveal(Seq::filter);
            assert(self@.subscriptions.take(0) =~= Seq::empty());
            assert(subscription_views(out@) =~= Seq::empty());
        }
        while i < self.subscriptions.len()
            invariant
                i <= self.subscriptions.len(),
                subscription_views(out@) == subscriptions_in(
                    rows_of_chat(self@.subscriptions.take(i as int), chat_id),
                ),
            decreases self.subscriptions.len() - i,
        {
            proof {
                reveal(Seq::filter);
                assert(self@.subscriptions.take(i + 1).drop_last() =~= self@.subscriptions.take(
                    i as int,
                ));
                assert(self@.subscriptions.take(i + 1).last() == self@.subscriptions[i as int]);
            }
            let row = &self.subscriptions[i];
            if row.subscription.chat_id == chat_id {
                let sub = copy_subscription(&row.subscription);
                proof {
                    assert(subscription_views(out@.push(sub)) =~= subscription_views(out@).push(
                        sub@,
                    ));
                    assert(subscriptions_in(
                        rows_of_chat(self@.subscriptions.take(i as int), chat_id).push(
                            self@.subscriptions[i as int],
                        ),
                    ) =~= subscriptions_in(
                        rows_of_chat(self@.subscriptions.take(i as int), chat_id),
                    ).push(sub@));
                }
                out.push(sub);
            }
            i += 1;
        }
        proof {
            assert(self@.subscriptions.take(i as int) =~= self@.subscriptions);
        }
        Ok(out)
    }

    /// All subscriptions, in the order of the table.
    pub fn get_all_subscriptions(&self) -> (r: Result<Vec<Subscription>, StoreError>)
        requires
            self@.well_formed(),
        ensures
            self@.has_subscription_table() ==> r is Ok && subscription_views(r->Ok_0@)
                == self@.all_subscriptions(),
            !self@.has_subscription_table() ==> r is Err && r->Err_0 == StoreError::NoSuchTable,
    {
        if self.schema_version < 2 {
            return Err(StoreError::NoSuchTable);
        }
        let mut out: Vec<Subscription> = Vec::new();
        let mut i: usize = 0;
        proof {
            assert(subscription_views(out@) =~= subscriptions_in(self@.subscriptions.take(0)));
        }
        while i < self.subscriptions.len()
            invariant
                i <= self.subscriptions.len(),
                subscription_views(out@) == subscriptions_in(self@.subscriptions.take(i as int)),
            decreases self.subscriptions.len() - i,
        {
            let sub = copy_subscription(&self.subscriptions[i].subscription);
            proof {
                assert(self@.subscriptions.take(i + 1) =~= self@.subscriptions.take(i as int).push(
                    self@.subscriptions[i as int],
                ));
                assert(subscription_views(out@.push(sub)) =~= subscription_views(out@).push(sub@));
                assert(subscriptions_in(
                    self@.subscriptions.take(i as int).push(self@.subscriptions[i as int]),
                ) =~= subscriptions_in(self@.subscriptions.take(i as int)).push(sub@));
            }
            out.push(sub);
            i += 1;
        }
        proof {
            assert(self@.subscriptions.take(i as int) =~= self@.subscriptions);
        }
        Ok(out)
    }
}

/// A second copy of a subscription.
pub fn copy_subscription(sub: &Subscription) -> (r: Subscription)
    ensures
        r@ == sub@,
{
    Subscription {
        chat_id: sub.chat_id,
        subreddit: sub.subreddit.clone(),
        limit: sub.limit,
        time: sub.time,
        filter: sub.filter,
    }
}

} // verus!
