//! The life of the poller: when a cycle starts, when it sleeps, when it stops.

use vstd::prelude::*;

verus! {

/// Where the poller stands.
#[derive(Debug, Clone, Copy, PartialEq, Eq, Structural)]
pub enum SchedulerState {
    /// Started, no cycle run yet.
    Idle,
    /// In a cycle, handling subscriptions one after the other.
    Polling,
    /// In a cycle and told to stop: the subscription in hand is finished first.
    Draining,
    /// Between two cycles.
    Sleeping,
    /// Stopped for good.
    Terminated,
}

/// What happened.
#[derive(Debug, Clone, Copy, PartialEq, Eq, Structural)]
pub enum SchedulerEvent {
    /// The timer fired: at start-up, or at the end of a sleep.
    Tick,
    /// A subscription was handled and others are left in this cycle.
    SubscriptionDone,
    /// The last subscription of the cycle was handled.
    CycleDone,
    /// A shutdown signal came in.
    Shutdown,
}

/// What the runner does next.
#[derive(Debug, Clone, Copy, PartialEq, Eq, Structural)]
pub enum SchedulerAction {
    /// List the subscriptions and handle the first.
    StartCycle,
    /// Handle the next subscription of the cycle.
    NextSubscription,
    /// Sleep for so many seconds, or until a signal comes in.
    Sleep { secs: u64 },
    /// Leave the loop.
    Stop,
    /// Go on with what is in hand.
    Nothing,
}

/// The state after an event.
pub open spec fn next_state(state: SchedulerState, event: SchedulerEvent) -> SchedulerState {
    match (state, event) {
        (SchedulerState::Idle, SchedulerEvent::Tick) => SchedulerState::Polling,
        (SchedulerState::Idle, SchedulerEvent::Shutdown) => SchedulerState::Terminated,
        (SchedulerState::Polling, SchedulerEvent::CycleDone) => SchedulerState::Sleeping,
        (SchedulerState::Polling, SchedulerEvent::Shutdown) => SchedulerState::Draining,
        (SchedulerState::Draining, SchedulerEvent::SubscriptionDone) => SchedulerState::Terminated,
        (SchedulerState::Draining, SchedulerEvent::CycleDone) => SchedulerState::Terminated,
        (SchedulerState::Draining, SchedulerEvent::Shutdown) => SchedulerState::Terminated,
        (SchedulerState::Sleeping, SchedulerEvent::Tick) => SchedulerState::Polling,
        (SchedulerState::Sleeping, SchedulerEvent::Shutdown) => SchedulerState::Terminated,
        _ => state,
    }
}

/// What the runner does on an event.
pub open spec fn action_on(
    state: SchedulerState,
    event: SchedulerEvent,
    check_interval_secs: u64,
) -> SchedulerAction {
    match (state, event) {
        (SchedulerState::Idle, SchedulerEvent::Tick) => SchedulerAction::StartCycle,
        (SchedulerState::Sleeping, SchedulerEvent::Tick) => SchedulerAction::StartCycle,
        (SchedulerState::Polling, SchedulerEvent::SubscriptionDone) => SchedulerAction::NextSubscription,
        (SchedulerState::Polling, SchedulerEvent::CycleDone) => SchedulerAction::Sleep {
            secs: check_interval_secs,
        },
        (SchedulerState::Terminated, _) => SchedulerAction::Nothing,
        _ => if next_state(state, event) == SchedulerState::Terminated {
            SchedulerAction::Stop
        } else {
            SchedulerAction::Nothing
        },
    }
}

/// Takes one event: the new state, and what to do.
pub fn step(state: SchedulerState, event: SchedulerEvent, check_interval_secs: u64) -> (r: (
    SchedulerState,
    SchedulerAction,
))
    ensures
        r.0 == next_state(state, event),
        r.1 == action_on(state, event, check_interval_secs),
{
    match state {
        SchedulerState::Idle => match event {
            SchedulerEvent::Tick => (SchedulerState::Polling, SchedulerAction::StartCycle),
            SchedulerEvent::Shutdown => (SchedulerState::Terminated, SchedulerAction::Stop),
            _ => (state, SchedulerAction::Nothing),
        },
        SchedulerState::Polling => match event {
            SchedulerEvent::SubscriptionDone => (
                SchedulerState::Polling,
                SchedulerAction::NextSubscription,
            ),
            SchedulerEvent::CycleDone => (
                SchedulerState::Sleeping,
                SchedulerAction::Sleep { secs: check_interval_secs },
            ),
            SchedulerEvent::Shutdown => (SchedulerState::Draining, SchedulerAction::Nothing),
            SchedulerEvent::Tick => (state, SchedulerAction::Nothing),
        },
        SchedulerState::Draining => match event {
            SchedulerEvent::Tick => (state, SchedulerAction::Nothing),
            _ => (SchedulerState::Terminated, SchedulerAction::Stop),
        },
        SchedulerState::Sleeping => match event {
            SchedulerEvent::Tick => (SchedulerState::Polling, SchedulerAction::StartCycle),
            SchedulerEvent::Shutdown => (SchedulerState::Terminated, SchedulerAction::Stop),
            _ => (state, SchedulerAction::Nothing),
        },
        SchedulerState::Terminated => (state, SchedulerAction::Nothing),
    }
}

/// The state in which the poller starts.
pub fn initial_state() -> (s: SchedulerState)
    ensures
        s == SchedulerState::Idle,
{
    SchedulerState::Idle
}

/// Whether a shutdown has been taken in.
pub open spec fn is_stopping(state: SchedulerState) -> bool {
    state == SchedulerState::Draining || state == SchedulerState::Terminated
}

/// A cycle starts only from rest, so no two cycles ever run at once; work on a
/// subscription is handed out only inside a cycle that was not told to stop.
pub proof fn lemma_cycles_do_not_overlap(
    state: SchedulerState,
    event: SchedulerEvent,
    check_interval_secs: u64,
)
    ensures
        action_on(state, event, check_interval_secs) == SchedulerAction::StartCycle ==> (state
            == SchedulerState::Idle || state == SchedulerState::Sleeping) && next_state(state, event)
            == SchedulerState::Polling,
        action_on(state, event, check_interval_secs) == SchedulerAction::NextSubscription ==> state
            == SchedulerState::Polling && next_state(state, event) == SchedulerState::Polling,
        action_on(state, event, check_interval_secs) is Sleep ==> state == SchedulerState::Polling
            && event == SchedulerEvent::CycleDone,
{
}

/// A shutdown is final: it stops a sleeping or idle poller at once, lets a
/// polling one finish the subscription in hand, and from then on no cycle and
/// no subscription is started; a stopped poller stays stopped.
pub proof fn lemma_shutdown_is_final(
    state: SchedulerState,
    event: SchedulerEvent,
    check_interval_secs: u64,
)
    ensures
        is_stopping(next_state(state, SchedulerEvent::Shutdown)),
        state != SchedulerState::Polling ==> next_state(state, SchedulerEvent::Shutdown)
            == SchedulerState::Terminated,
        is_stopping(state) ==> is_stopping(next_state(state, event)),
        is_stopping(state) ==> action_on(state, event, check_interval_secs)
            == SchedulerAction::Stop || action_on(state, event, check_interval_secs)
            == SchedulerAction::Nothing,
        state == SchedulerState::Terminated ==> next_state(state, event)
            == SchedulerState::Terminated,
        action_on(state, event, check_interval_secs) == SchedulerAction::Stop <==> state
            != SchedulerState::Terminated && next_state(state, event) == SchedulerState::Terminated,
{
}

} // verus!
