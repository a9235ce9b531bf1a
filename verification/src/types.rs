//! Subscriptions and what a download hands back.

use crate::reddit::kinds::{PostType, TopPostsTimePeriod};
use vstd::prelude::*;

verus! {

/// A downloaded video: where it lies and its size in pixels.
#[derive(Debug)]
pub struct Video {
    pub path: String,
    pub width: u16,
    pub height: u16,
}

/// One chat's subscription to one subreddit, with its optional overrides.
#[derive(Debug, PartialEq)]
pub struct Subscription {
    pub chat_id: i64,
    pub subreddit: String,
    pub limit: Option<u32>,
    pub time: Option<TopPostsTimePeriod>,
    pub filter: Option<PostType>,
}

/// What a subscribe or fetch command asks for.
#[derive(Debug, Clone, PartialEq)]
pub struct SubscriptionArgs {
    pub subreddit: String,
    pub limit: Option<u32>,
    pub time: Option<TopPostsTimePeriod>,
    pub filter: Option<PostType>,
}

/// A subscription as a mathematical value.
pub struct SubscriptionView {
    pub chat_id: i64,
    pub subreddit: Seq<char>,
    pub limit: Option<u32>,
    pub time: Option<TopPostsTimePeriod>,
    pub filter: Option<PostType>,
}

/// The arguments of a command as a mathematical value.
pub struct SubscriptionArgsView {
    pub subreddit: Seq<char>,
    pub limit: Option<u32>,
    pub time: Option<TopPostsTimePeriod>,
    pub filter: Option<PostType>,
}

impl View for Subscription {
    type V = SubscriptionView;

    open spec fn view(&self) -> SubscriptionView {
        SubscriptionView {
            chat_id: self.chat_id,
            subreddit: self.subreddit@,
            limit: self.limit,
            time: self.time,
            filter: self.filter,
        }
    }
}

impl View for SubscriptionArgs {
    type V = SubscriptionArgsView;

    open spec fn view(&self) -> SubscriptionArgsView {
        SubscriptionArgsView {
            subreddit: self.subreddit@,
            limit: self.limit,
            time: self.time,
            filter: self.filter,
        }
    }
}

impl SubscriptionArgsView {
    /// The subscription that these arguments make for a chat.
    pub open spec fn for_chat(self, chat_id: i64) -> SubscriptionView {
        SubscriptionView {
            chat_id,
            subreddit: self.subreddit,
            limit: self.limit,
            time: self.time,
            filter: self.filter,
        }
    }
}

} // verus!
