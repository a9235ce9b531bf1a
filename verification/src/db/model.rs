//! The store as a mathematical value: two tables of rows and the rules they obey.

use crate::text::like;
use crate::types::SubscriptionView;
use vstd::prelude::*;

verus! {

/// A row of the table of seen posts.
pub struct SeenPostView {
    pub post_id: Seq<char>,
    pub chat_id: i64,
    pub subreddit: Seq<char>,
    pub seen_at: i64,
}

/// A row of the table of subscriptions.
pub struct SubscriptionRowView {
    pub subscription: SubscriptionView,
    pub created_at: i64,
}

/// The whole store. Schema version 1 brings the table of seen posts,
/// version 2 the table of subscriptions.
pub struct StoreView {
    pub subscriptions: Seq<SubscriptionRowView>,
    pub posts: Seq<SeenPostView>,
    pub schema_version: nat,
    pub reject_overwrites: bool,
}

impl SubscriptionRowView {
    /// Whether the row is the one of this chat and subreddit.
    pub open spec fn has_key(self, chat_id: i64, subreddit: Seq<char>) -> bool {
        self.subscription.chat_id == chat_id && self.subscription.subreddit == subreddit
    }

    /// Whether an unsubscribe command of this chat with this pattern names the row.
    pub open spec fn is_named_by(self, chat_id: i64, pattern: Seq<char>) -> bool {
        self.subscription.chat_id == chat_id && like(pattern, self.subscription.subreddit)
    }
}

impl SeenPostView {
    /// Whether the row is the one of this post and chat.
    pub open spec fn has_key(self, post_id: Seq<char>, chat_id: i64) -> bool {
        self.post_id == post_id && self.chat_id == chat_id
    }
}

/// No two subscriptions are of the same chat and subreddit.
pub open spec fn subscriptions_unique(rows: Seq<SubscriptionRowView>) -> bool {
    forall|i: int, j: int|
        0 <= i < j < rows.len() ==> !(#[trigger] rows[i]).has_key(
            (#[trigger] rows[j]).subscription.chat_id,
            rows[j].subscription.subreddit,
        )
}

/// No two seen posts are of the same post and chat.
pub open spec fn posts_unique(rows: Seq<SeenPostView>) -> bool {
    forall|i: int, j: int|
        0 <= i < j < rows.len() ==> !(#[trigger] rows[i]).has_key(
            (#[trigger] rows[j]).post_id,
            rows[j].chat_id,
        )
}

/// The rows that an unsubscribe command leaves, in their order.
pub open spec fn rows_without_named(
    rows: Seq<SubscriptionRowView>,
    chat_id: i64,
    pattern: Seq<char>,
) -> Seq<SubscriptionRowView> {
    rows.filter(|row: SubscriptionRowView| !row.is_named_by(chat_id, pattern))
}

/// The rows of one chat, in their order.
pub open spec fn rows_of_chat(rows: Seq<SubscriptionRowView>, chat_id: i64) -> Seq<
    SubscriptionRowView,
> {
    rows.filter(|row: SubscriptionRowView| row.subscription.chat_id == chat_id)
}

/// The subscriptions that rows hold, in their order.
pub open spec fn subscriptions_in(rows: Seq<SubscriptionRowView>) -> Seq<SubscriptionView> {
    rows.map_values(|row: SubscriptionRowView| row.subscription)
}

impl StoreView {
    pub open spec fn has_post_table(self) -> bool {
        self.schema_version >= 1
    }

    pub open spec fn has_subscription_table(self) -> bool {
        self.schema_version >= 2
    }

    /// A table that the schema does not have yet holds no row, and each table
    /// keeps its primary key.
    pub open spec fn well_formed(self) -> bool {
        &&& self.schema_version <= 2
        &&& !self.has_post_table() ==> self.posts.len() == 0
        &&& !self.has_subscription_table() ==> self.subscriptions.len() == 0
        &&& subscriptions_unique(self.subscriptions)
        &&& posts_unique(self.posts)
    }

    /// A store fresh from opening: no table, no row.
    pub open spec fn empty(reject_overwrites: bool) -> StoreView {
        StoreView {
            subscriptions: Seq::empty(),
            posts: Seq::empty(),
            schema_version: 0,
            reject_overwrites,
        }
    }

    /// The store after migration: both tables are there, and no row has changed.
    pub open spec fn migrated(self) -> StoreView {
        StoreView { schema_version: 2, ..self }
    }

    /// Whether the post has been marked seen for the chat.
    pub open spec fn is_seen(self, chat_id: i64, post_id: Seq<char>) -> bool {
        exists|i: int| 0 <= i < self.posts.len() && (#[trigger] self.posts[i]).has_key(post_id, chat_id)
    }

    /// Whether any post of the subreddit has been marked seen for the chat.
    pub open spec fn has_seen_in(self, chat_id: i64, subreddit: Seq<char>) -> bool {
        exists|i: int|
            0 <= i < self.posts.len() && (#[trigger] self.posts[i]).chat_id == chat_id
                && self.posts[i].subreddit == subreddit
    }

    /// Whether the chat has a subscription to the subreddit.
    pub open spec fn is_subscribed(self, chat_id: i64, subreddit: Seq<char>) -> bool {
        exists|i: int|
            0 <= i < self.subscriptions.len() && (#[trigger] self.subscriptions[i]).has_key(
                chat_id,
                subreddit,
            )
    }

    /// The store after a post is marked seen: a post that was seen already
    /// changes nothing, another one adds its row at the end.
    pub open spec fn mark_seen(self, row: SeenPostView) -> StoreView {
        if self.is_seen(row.chat_id, row.post_id) {
            self
        } else {
            StoreView { posts: self.posts.push(row), ..self }
        }
    }

    /// The store after a subscription is written: a row with the same chat and
    /// subreddit is replaced where it stands, otherwise the row is added at the end.
    pub open spec fn put_subscription(self, row: SubscriptionRowView) -> StoreView {
        if self.is_subscribed(row.subscription.chat_id, row.subscription.subreddit) {
            StoreView {
                subscriptions: Seq::new(
                    self.subscriptions.len(),
                    |i: int|
                        if self.subscriptions[i].has_key(
                            row.subscription.chat_id,
                            row.subscription.subreddit,
                        ) {
                            row
                        } else {
                            self.subscriptions[i]
                        },
                ),
                ..self
            }
        } else {
            StoreView { subscriptions: self.subscriptions.push(row), ..self }
        }
    }

    /// The store after an unsubscribe command.
    pub open spec fn unsubscribe(self, chat_id: i64, pattern: Seq<char>) -> StoreView {
        StoreView { subscriptions: rows_without_named(self.subscriptions, chat_id, pattern), ..self }
    }

    /// Whether an unsubscribe command names a row.
    pub open spec fn names_some(self, chat_id: i64, pattern: Seq<char>) -> bool {
        exists|i: int|
            0 <= i < self.subscriptions.len() && (#[trigger] self.subscriptions[i]).is_named_by(
                chat_id,
                pattern,
            )
    }

    /// The subscriptions of one chat, in the order of the table.
    pub open spec fn subscriptions_of(self, chat_id: i64) -> Seq<SubscriptionView> {
        subscriptions_in(rows_of_chat(self.subscriptions, chat_id))
    }

    /// All subscriptions, in the order of the table.
    pub open spec fn all_subscriptions(self) -> Seq<SubscriptionView> {
        subscriptions_in(self.subscriptions)
    }
}

} // verus!
