use tgreddit::scheduler::{initial_state, step, SchedulerAction, SchedulerEvent, SchedulerState};

#[test]
fn an_ordinary_life() {
    let mut state = initial_state();
    assert_eq!(state, SchedulerState::Idle);
    let (next, action) = step(state, SchedulerEvent::Tick, 60);
    assert_eq!((next, action), (SchedulerState::Polling, SchedulerAction::StartCycle));
    state = next;
    let (next, action) = step(state, SchedulerEvent::SubscriptionDone, 60);
    assert_eq!((next, action), (SchedulerState::Polling, SchedulerAction::NextSubscription));
    state = next;
    let (next, action) = step(state, SchedulerEvent::CycleDone, 60);
    assert_eq!((next, action), (SchedulerState::Sleeping, SchedulerAction::Sleep { secs: 60 }));
    state = next;
    let (next, action) = step(state, SchedulerEvent::Tick, 60);
    assert_eq!((next, action), (SchedulerState::Polling, SchedulerAction::StartCycle));
    state = next;
    let (next, action) = step(state, SchedulerEvent::Tick, 60);
    assert_eq!((next, action), (SchedulerState::Polling, SchedulerAction::Nothing));
}

#[test]
fn shutdown_while_sleeping_stops_at_once() {
    assert_eq!(
        step(SchedulerState::Sleeping, SchedulerEvent::Shutdown, 60),
        (SchedulerState::Terminated, SchedulerAction::Stop)
    );
    assert_eq!(
        step(SchedulerState::Idle, SchedulerEvent::Shutdown, 60),
        (SchedulerState::Terminated, SchedulerAction::Stop)
    );
}

#[test]
fn shutdown_while_polling_waits_for_the_subscription() {
    let (state, action) = step(SchedulerState::Polling, SchedulerEvent::Shutdown, 60);
    assert_eq!((state, action), (SchedulerState::Draining, SchedulerAction::Nothing));
    assert_eq!(
        step(state, SchedulerEvent::Tick, 60),
        (SchedulerState::Draining, SchedulerAction::Nothing)
    );
    assert_eq!(
        step(state, SchedulerEvent::SubscriptionDone, 60),
        (SchedulerState::Terminated, SchedulerAction::Stop)
    );
    assert_eq!(
        step(state, SchedulerEvent::CycleDone, 60),
        (SchedulerState::Terminated, SchedulerAction::Stop)
    );
    assert_eq!(
        step(state, SchedulerEvent::Shutdown, 60),
        (SchedulerState::Terminated, SchedulerAction::Stop)
    );
}

#[test]
fn terminated_stays_terminated() {
    for event in [
        SchedulerEvent::Tick,
        SchedulerEvent::SubscriptionDone,
        SchedulerEvent::CycleDone,
        SchedulerEvent::Shutdown,
    ] {
        assert_eq!(
            step(SchedulerState::Terminated, event, 60),
            (SchedulerState::Terminated, SchedulerAction::Nothing)
        );
    }
}

#[test]
fn events_out_of_place_change_nothing() {
    assert_eq!(
        step(SchedulerState::Idle, SchedulerEvent::CycleDone, 1),
        (SchedulerState::Idle, SchedulerAction::Nothing)
    );
    assert_eq!(
        step(SchedulerState::Sleeping, SchedulerEvent::SubscriptionDone, 1),
        (SchedulerState::Sleeping, SchedulerAction::Nothing)
    );
}
