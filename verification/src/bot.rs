//! The commands of the bot: how they are read, and what they do.

use crate::clock::unix_now;
use crate::config::Config;
use crate::db::laws::{lemma_put_subscription_well_formed, lemma_unsubscribe_well_formed};
use crate::db::model::StoreView;
use crate::db::store::{subscription_row, Database};
use crate::messages::{format_subscription_list, lemma_subscription_list_of, subscription_list_of};
use crate::pattern::{find_first, group_of_first, regex_find, regex_group};
use crate::poller::{
    effective_params, matches_filter, or_setting, params_in_force, passes_filter, places,
};
use crate::reddit::api::SubredditAboutError;
use crate::reddit::kinds::{PostType, TopPostsTimePeriod};
use crate::reddit::types::{Post, SubredditAbout};
use crate::text::{concat_strs, opt_view, parse_u32, parsed_u32, replace, replace_all};
use crate::types::{SubscriptionArgs, SubscriptionArgsView};
use vstd::prelude::*;

verus! {

/// What a user can ask of the bot.
#[derive(Debug, Clone)]
pub enum Command {
    /// Show the commands.
    Help,
    /// Subscribe the chat to a subreddit's top posts.
    Sub(SubscriptionArgs),
    /// End the chat's subscription to a subreddit.
    Unsub(String),
    /// List the chat's subscriptions.
    ListSubs,
    /// Fetch top posts once.
    Get(SubscriptionArgs),
}

/// Why the arguments of a command could not be read.
#[derive(Debug, Clone, Copy, PartialEq, Eq, Structural)]
pub enum ParseError {
    /// The text does not begin with a subreddit.
    NoSubredditGiven,
    /// `time=` names no ranking window.
    UnknownTimePeriod,
    /// `filter=` names no type of post.
    UnknownPostType,
}

/// The subreddit: the text up to the first white space.
pub const SUBREDDIT_PATTERN: &'static str = r"^[^\s]+";

/// `limit=` and a number, as a word of its own.
pub const LIMIT_PATTERN: &'static str = r"\blimit=(\d+)\b";

/// `time=` and a word, as a word of its own.
pub const TIME_PATTERN: &'static str = r"\btime=(\w+)\b";

/// `filter=` and a word, as a word of its own.
pub const FILTER_PATTERN: &'static str = r"\bfilter=(\w+)\b";

/// The name of the subreddit in what the user typed: `/r/` and `r/` are left out.
pub open spec fn subreddit_name(token: Seq<char>) -> Seq<char> {
    replace_all(replace_all(token, "/r/"@, ""@), "r/"@, ""@)
}

/// The limit that the digits after `limit=` give: none where 32 bits do not
/// hold the number.
pub open spec fn limit_from(digits: Option<Seq<char>>) -> Option<u32> {
    match digits {
        Some(d) => parsed_u32(d),
        None => None,
    }
}

/// The arguments that the pieces of a command text give. A word after `time=`
/// or `filter=` that is no name is an error, the one after `time=` first.
pub open spec fn args_from(
    token: Seq<char>,
    limit: Option<Seq<char>>,
    time: Option<Seq<char>>,
    filter: Option<Seq<char>>,
) -> Result<SubscriptionArgsView, ParseError> {
    if time is Some && TopPostsTimePeriod::named(time->0) is None {
        Err(ParseError::UnknownTimePeriod)
    } else if filter is Some && PostType::named(filter->0) is None {
        Err(ParseError::UnknownPostType)
    } else {
        Ok(
            SubscriptionArgsView {
                subreddit: subreddit_name(token),
                limit: limit_from(limit),
                time: match time {
                    Some(t) => TopPostsTimePeriod::named(t),
                    None => None,
                },
                filter: match filter {
                    Some(f) => PostType::named(f),
                    None => None,
                },
            },
        )
    }
}

/// The arguments that a command text gives: the subreddit at its front, and
/// the overrides found in what follows it.
pub open spec fn parsed_subscribe(input: Seq<char>) -> Result<SubscriptionArgsView, ParseError> {
    match regex_find(SUBREDDIT_PATTERN@, input) {
        Some((token, rest)) => args_from(
            token,
            regex_group(LIMIT_PATTERN@, rest, 1),
            regex_group(TIME_PATTERN@, rest, 1),
            regex_group(FILTER_PATTERN@, rest, 1),
        ),
        None => Err(ParseError::NoSubredditGiven),
    }
}

/// Builds the arguments of a command from the pieces found in its text.
pub fn subscription_args_from(
    token: &str,
    limit: Option<&str>,
    time: Option<&str>,
    filter: Option<&str>,
) -> (r: Result<SubscriptionArgs, ParseError>)
    ensures
        r is Ok == args_from(token@, opt_view(limit), opt_view(time), opt_view(filter)) is Ok,
        r is Ok ==> r->Ok_0@ == args_from(
            token@,
            opt_view(limit),
            opt_view(time),
            opt_view(filter),
        )->Ok_0,
        r is Err ==> r->Err_0 == args_from(
            token@,
            opt_view(limit),
            opt_view(time),
            opt_view(filter),
        )->Err_0,
{
    let without_slash = replace(token, "/r/", "");
    let subreddit = replace(without_slash.as_str(), "r/", "");
    let limit = match limit {
        Some(digits) => parse_u32(digits),
        None => None,
    };
    let time = match time {
        Some(word) => match TopPostsTimePeriod::parse(word) {
            Some(t) => Some(t),
            None => {
                return Err(ParseError::UnknownTimePeriod);
            },
        },
        None => None,
    };
    let filter = match filter {
        Some(word) => match PostType::parse(word) {
            Some(f) => Some(f),
            None => {
                return Err(ParseError::UnknownPostType);
            },
        },
        None => None,
    };
    Ok(SubscriptionArgs { subreddit, limit, time, filter })
}

/// Reads the arguments of a subscribe or fetch command.
pub fn parse_subscribe_message(input: String) -> (r: Result<(SubscriptionArgs,), ParseError>)
    ensures
        r is Ok == parsed_subscribe(input@) is Ok,
        r matches Ok(args) ==> args.0@ == parsed_subscribe(input@)->Ok_0,
        r is Err ==> r->Err_0 == parsed_subscribe(input@)->Err_0,
{
    let (token, rest) = match find_first(SUBREDDIT_PATTERN, input.as_str()) {
        Some(found) => found,
        None => {
            return Err(ParseError::NoSubredditGiven);
        },
    };
    let limit = group_of_first(LIMIT_PATTERN, rest.as_str(), 1);
    let time = group_of_first(TIME_PATTERN, rest.as_str(), 1);
    let filter = group_of_first(FILTER_PATTERN, rest.as_str(), 1);
    let limit_ref = crate::text::opt_as_str(&limit);
    let time_ref = crate::text::opt_as_str(&time);
    let filter_ref = crate::text::opt_as_str(&filter);
    match subscription_args_from(token.as_str(), limit_ref, time_ref, filter_ref) {
        Ok(args) => Ok((args,)),
        Err(e) => Err(e),
    }
}

/// What the content source is asked before a command is handled.
#[derive(Debug)]
pub enum Request {
    /// Nothing: the command is handled from the store alone.
    Nothing,
    /// Whether the subreddit exists, and under which name.
    About { subreddit: String },
    /// The top posts of a subreddit.
    TopPosts { subreddit: String, limit: u32, time: TopPostsTimePeriod },
}

pub enum RequestView {
    Nothing,
    About { subreddit: Seq<char> },
    TopPosts { subreddit: Seq<char>, limit: u32, time: TopPostsTimePeriod },
}

impl View for Request {
    type V = RequestView;

    open spec fn view(&self) -> RequestView {
        match *self {
            Request::Nothing => RequestView::Nothing,
            Request::About { subreddit } => RequestView::About { subreddit: subreddit@ },
            Request::TopPosts { subreddit, limit, time } => RequestView::TopPosts {
                subreddit: subreddit@,
                limit,
                time,
            },
        }
    }
}

/// What the content source answered.
#[derive(Debug)]
pub enum Fetched {
    /// Nothing was asked.
    Nothing,
    /// The subreddit exists.
    About(SubredditAbout),
    /// There is no such subreddit.
    NoSuchSubreddit,
    /// The listing that was asked for.
    Posts(Vec<Post>),
    /// The source could not be asked, or its answer could not be read.
    Failed,
}

/// What the bot does in answer to a command.
#[derive(Debug)]
pub enum CommandOutcome {
    /// Send the list of commands.
    Help,
    /// Send this text.
    Reply(String),
    /// Deliver the fetched posts at these places, in this order.
    Deliver(Vec<usize>),
}

pub enum CommandOutcomeView {
    Help,
    Reply(Seq<char>),
    Deliver(Seq<int>),
}

impl View for CommandOutcome {
    type V = CommandOutcomeView;

    open spec fn view(&self) -> CommandOutcomeView {
        match *self {
            CommandOutcome::Help => CommandOutcomeView::Help,
            CommandOutcome::Reply(text) => CommandOutcomeView::Reply(text@),
            CommandOutcome::Deliver(at) => CommandOutcomeView::Deliver(places(at@)),
        }
    }
}

/// What a command asks of the content source.
pub open spec fn request_of(command: Command, config: Config) -> RequestView {
    match command {
        Command::Sub(args) => RequestView::About { subreddit: args.subreddit@ },
        Command::Get(args) => RequestView::TopPosts {
            subreddit: args.subreddit@,
            limit: params_in_force(args.limit, args.time, args.filter, config).limit,
            time: params_in_force(args.limit, args.time, args.filter, config).time,
        },
        _ => RequestView::Nothing,
    }
}

pub fn command_request(command: &Command, config: &Config) -> (r: Request)
    ensures
        r@ == request_of(*command, *config),
{
    match command {
        Command::Sub(args) => Request::About { subreddit: args.subreddit.clone() },
        Command::Get(args) => {
            let params = effective_params(args.limit, args.time, args.filter, config);
            Request::TopPosts {
                subreddit: args.subreddit.clone(),
                limit: params.limit,
                time: params.time,
            }
        },
        _ => Request::Nothing,
    }
}

/// The places of the posts that a filter keeps, in the listing's order.
pub open spec fn kept_places(posts: Seq<Post>, filter: Option<PostType>) -> Seq<int>
    decreases posts.len(),
{
    if posts.len() == 0 {
        Seq::empty()
    } else if passes_filter(filter, posts.last().post_type) {
        kept_places(posts.drop_last(), filter).push(posts.len() - 1)
    } else {
        kept_places(posts.drop_last(), filter)
    }
}

/// Lists the places of the posts that a filter keeps.
pub fn select_posts(posts: &Vec<Post>, filter: Option<PostType>) -> (r: Vec<usize>)
    ensures
        places(r@) == kept_places(posts@, filter),
{
    let mut out: Vec<usize> = Vec::new();
    let mut i: usize = 0;
    proof {
        assert(posts@.take(0) =~= Seq::empty());
        assert(places(out@) =~= Seq::empty());
    }
    while i < posts.len()
        invariant
            i <= posts.len(),
            places(out@) == kept_places(posts@.take(i as int), filter),
        decreases posts.len() - i,
    {
        proof {
            assert(posts@.take(i + 1).drop_last() =~= posts@.take(i as int));
            assert(posts@.take(i + 1).last() == posts@[i as int]);
        }
        if matches_filter(filter, posts[i].post_type) {
            proof {
                assert(places(out@.push(i)) =~= places(out@).push(i as int));
            }
            out.push(i);
        }
        i += 1;
    }
    proof {
        assert(posts@.take(i as int) =~= posts@);
    }
    out
}

/// The text that tells of a failure.
pub open spec fn failure_reply() -> CommandOutcomeView {
    CommandOutcomeView::Reply("Something went wrong"@)
}

/// The answer to an unsubscribe command: the store's word on whether a
/// subscription was removed is written after `r/`.
pub open spec fn unsubscribed_reply(removed: bool) -> Seq<char> {
    "Unsubscribed from r/"@ + (if removed {
        "true"@
    } else {
        "false"@
    })
}

/// The store and the answer after a command.
pub struct Handled {
    pub store: StoreView,
    pub outcome: CommandOutcomeView,
}

/// What a command does, given what the content source answered.
pub open spec fn handled(
    store: StoreView,
    config: Config,
    chat_id: i64,
    command: Command,
    fetched: Fetched,
    now: i64,
) -> Handled {
    match command {
        Command::Help => Handled { store, outcome: CommandOutcomeView::Help },
        Command::Sub(args) => match fetched {
            Fetched::About(about) => {
                let named = SubscriptionArgs { subreddit: about.display_name, ..args };
                if Database::subscribe_outcome(store, chat_id, named@.subreddit) is Ok {
                    Handled {
                        store: store.put_subscription(subscription_row(chat_id, named, now)),
                        outcome: CommandOutcomeView::Reply(
                            "Subscribed to r/"@ + about.display_name@,
                        ),
                    }
                } else {
                    Handled { store, outcome: failure_reply() }
                }
            },
            Fetched::NoSuchSubreddit => Handled {
                store,
                outcome: CommandOutcomeView::Reply("No such subreddit"@),
            },
            _ => Handled { store, outcome: failure_reply() },
        },
        Command::Unsub(subreddit) => {
            let pattern = replace_all(subreddit@, "r/"@, ""@);
            if store.has_subscription_table() {
                Handled {
                    store: store.unsubscribe(chat_id, pattern),
                    outcome: CommandOutcomeView::Reply(
                        unsubscribed_reply(store.names_some(chat_id, pattern)),
                    ),
                }
            } else {
                Handled {
                    store,
                    outcome: CommandOutcomeView::Reply("Error: Not subscribed to r/"@ + pattern),
                }
            }
        },
        Command::ListSubs => if store.has_subscription_table() {
            Handled {
                store,
                outcome: CommandOutcomeView::Reply(
                    subscription_list_of(store.subscriptions_of(chat_id)),
                ),
            }
        } else {
            Handled { store, outcome: failure_reply() }
        },
        Command::Get(args) => match fetched {
            Fetched::Posts(posts) => {
                let kept = kept_places(posts@, or_setting(args.filter, config.default_filter));
                if kept.len() > 0 {
                    Handled { store, outcome: CommandOutcomeView::Deliver(kept) }
                } else {
                    Handled { store, outcome: CommandOutcomeView::Reply("No posts found"@) }
                }
            },
            _ => Handled { store, outcome: failure_reply() },
        },
    }
}

/// Handles a command of a chat at the given time, with what the content
/// source answered to the command's request.
pub fn handle_command_at(
    db: &mut Database,
    config: &Config,
    chat_id: i64,
    command: &Command,
    fetched: &Fetched,
    now: i64,
) -> (r: CommandOutcome)
    requires
        old(db)@.well_formed(),
    ensures
        final(db)@.well_formed(),
        final(db)@ == handled(old(db)@, *config, chat_id, *command, *fetched, now).store,
        r@ == handled(old(db)@, *config, chat_id, *command, *fetched, now).outcome,
{
    match command {
        Command::Help => CommandOutcome::Help,
        Command::Sub(args) => match fetched {
            Fetched::About(about) => {
                let named = SubscriptionArgs {
                    subreddit: about.display_name.clone(),
                    limit: args.limit,
                    time: args.time,
                    filter: args.filter,
                };
                match db.subscribe_at(chat_id, &named, now) {
                    Ok(()) => CommandOutcome::Reply(
                        concat_strs("Subscribed to r/", named.subreddit.as_str()),
                    ),
                    Err(_) => CommandOutcome::Reply(String::from_str("Something went wrong")),
                }
            },
            Fetched::NoSuchSubreddit => CommandOutcome::Reply(String::from_str("No such subreddit")),
            _ => CommandOutcome::Reply(String::from_str("Something went wrong")),
        },
        Command::Unsub(subreddit) => {
            let pattern = replace(subreddit.as_str(), "r/", "");
            match db.unsubscribe(chat_id, pattern.as_str()) {
                Ok(removed) => CommandOutcome::Reply(
                    concat_strs("Unsubscribed from r/", if removed {
                        "true"
                    } else {
                        "false"
                    }),
                ),
                Err(_) => CommandOutcome::Reply(
                    concat_strs("Error: Not subscribed to r/", pattern.as_str()),
                ),
            }
        },
        Command::ListSubs => match db.get_subscriptions_for_chat(chat_id) {
            Ok(subs) => {
                proof {
                    lemma_subscription_list_of(subs@);
                }
                CommandOutcome::Reply(format_subscription_list(subs.as_slice()))
            },
            Err(_) => CommandOutcome::Reply(String::from_str("Something went wrong")),
        },
        Command::Get(args) => match fetched {
            Fetched::Posts(posts) => {
                let filter = match args.filter {
                    Some(f) => Some(f),
                    None => config.default_filter,
                };
                let kept = select_posts(posts, filter);
                if kept.len() > 0 {
                    CommandOutcome::Deliver(kept)
                } else {
                    CommandOutcome::Reply(String::from_str("No posts found"))
                }
            },
            _ => CommandOutcome::Reply(String::from_str("Something went wrong")),
        },
    }
}

/// Handles a command of a chat at the current time.
pub fn handle_command(
    db: &mut Database,
    config: &Config,
    chat_id: i64,
    command: &Command,
    fetched: &Fetched,
) -> (r: CommandOutcome)
    requires
        old(db)@.well_formed(),
    ensures
        final(db)@.well_formed(),
        exists|now: i64|
            {
                let after = #[trigger] handled(old(db)@, *config, chat_id, *command, *fetched, now);
                final(db)@ == after.store && r@ == after.outcome
            },
{
    let now = unix_now();
    handle_command_at(db, config, chat_id, command, fetched, now)
}

/// The answer of the source to the question about a subreddit, as a command
/// takes it.
pub fn fetched_about(answer: Result<SubredditAbout, SubredditAboutError>) -> (r: Fetched)
    ensures
        answer is Ok ==> r == Fetched::About(answer->Ok_0),
        answer is Err && answer->Err_0 == SubredditAboutError::NoSuchSubreddit ==> r
            == Fetched::NoSuchSubreddit,
        answer is Err && answer->Err_0 != SubredditAboutError::NoSuchSubreddit ==> r
            == Fetched::Failed,
{
    match answer {
        Ok(about) => Fetched::About(about),
        Err(SubredditAboutError::NoSuchSubreddit) => Fetched::NoSuchSubreddit,
        Err(_) => Fetched::Failed,
    }
}

/// The listing that the source sent, as a command takes it: `None` where the
/// source could not be asked or its answer could not be read.
pub fn fetched_posts(answer: Option<Vec<Post>>) -> (r: Fetched)
    ensures
        answer is Some ==> r == Fetched::Posts(answer->0),
        answer is None ==> r == Fetched::Failed,
{
    match answer {
        Some(posts) => Fetched::Posts(posts),
        None => Fetched::Failed,
    }
}

/// No command takes a seen post away, and every command leaves the store
/// well formed: no chat has two subscriptions to one subreddit.
pub proof fn lemma_commands_keep_store(
    store: StoreView,
    config: Config,
    chat_id: i64,
    command: Command,
    fetched: Fetched,
    now: i64,
    seen_chat: i64,
    seen_post: Seq<char>,
)
    requires
        store.well_formed(),
    ensures
        handled(store, config, chat_id, command, fetched, now).store.well_formed(),
        store.is_seen(seen_chat, seen_post) ==> handled(
            store,
            config,
            chat_id,
            command,
            fetched,
            now,
        ).store.is_seen(seen_chat, seen_post),
{
    let after = handled(store, config, chat_id, command, fetched, now).store;
    assert(after.posts == store.posts);
    if store.is_seen(seen_chat, seen_post) {
        let i = choose|i: int|
            0 <= i < store.posts.len() && (#[trigger] store.posts[i]).has_key(seen_post, seen_chat);
        assert(after.posts[i].has_key(seen_post, seen_chat));
    }
    match command {
        Command::Sub(args) => match fetched {
            Fetched::About(about) => {
                let named = SubscriptionArgs { subreddit: about.display_name, ..args };
                if Database::subscribe_outcome(store, chat_id, named@.subreddit) is Ok {
                    lemma_put_subscription_well_formed(
                        store,
                        subscription_row(chat_id, named, now),
                    );
                }
            },
            _ => {},
        },
        Command::Unsub(subreddit) => {
            lemma_unsubscribe_well_formed(store, chat_id, replace_all(subreddit@, "r/"@, ""@));
        },
        _ => {},
    }
}

} // verus!
