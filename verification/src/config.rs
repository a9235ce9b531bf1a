//! The settings that the engine reads.

use crate::reddit::kinds::{PostType, TopPostsTimePeriod};
use vstd::prelude::*;

verus! {

/// Posts fetched per poll where neither subscription nor settings say otherwise.
pub const DEFAULT_LIMIT: u32 = 1;

/// The ranking window where neither subscription nor settings say otherwise.
pub open spec fn default_time_period() -> TopPostsTimePeriod {
    TopPostsTimePeriod::Day
}

/// The ranking window where neither subscription nor settings say otherwise.
#[verifier::when_used_as_spec(default_time_period)]
pub fn default_time() -> (t: TopPostsTimePeriod)
    ensures
        t == default_time_period(),
{
    TopPostsTimePeriod::Day
}

#[derive(Debug)]
pub struct Config {
    pub authorized_user_ids: Vec<u64>,
    pub db_path: String,
    pub check_interval_secs: u64,
    pub skip_initial_send: bool,
    pub links_base_url: Option<String>,
    pub default_limit: Option<u32>,
    pub default_time: Option<TopPostsTimePeriod>,
    pub default_filter: Option<PostType>,
}

/// The first poll of a new subscription sends nothing unless the settings say so.
pub fn default_skip_initial_send() -> (b: bool)
    ensures
        b,
{
    true
}

impl Default for Config {
    fn default() -> (c: Config)
        ensures
            c.authorized_user_ids@.len() == 0,
            c.db_path@.len() == 0,
            c.check_interval_secs == 0,
            !c.skip_initial_send,
            c.links_base_url is None,
            c.default_limit is None,
            c.default_time is None,
            c.default_filter is None,
    {
        Config {
            authorized_user_ids: Vec::new(),
            db_path: String::new(),
            check_interval_secs: 0,
            skip_initial_send: false,
            links_base_url: None,
            default_limit: None,
            default_time: None,
            default_filter: None,
        }
    }
}

impl Config {
    /// Whether the sender of a message may command the bot: a message without
    /// a sender may not.
    pub open spec fn authorizes(self, user_id: Option<u64>) -> bool {
        match user_id {
            Some(id) => self.authorized_user_ids@.contains(id),
            None => false,
        }
    }

    pub fn is_authorized(&self, user_id: Option<u64>) -> (r: bool)
        ensures
            r == self.authorizes(user_id),
    {
        match user_id {
            Some(id) => {
                let mut i: usize = 0;
                while i < self.authorized_user_ids.len()
                    invariant
                        i <= self.authorized_user_ids.len(),
                        user_id == Some(id),
                        forall|j: int| 0 <= j < i ==> self.authorized_user_ids@[j] != id,
                    decreases self.authorized_user_ids.len() - i,
                {
                    if self.authorized_user_ids[i] == id {
                        assert(self.authorized_user_ids@[i as int] == id);
                        return true;
                    }
                    i += 1;
                }
                false
            },
            None => false,
        }
    }

    pub open spec fn links_base(self) -> Option<Seq<char>> {
        match self.links_base_url {
            Some(u) => Some(u@),
            None => None,
        }
    }
}

} // verus!
