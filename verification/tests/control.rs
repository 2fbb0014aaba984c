use led_control::app_state::{DriverError, LedState};
use led_control::control::{LoopAction, LoopEvent, LoopState};
use led_control::level::{Level, ReasonCode};
use led_control::signal::SignalSlot;

fn loop_code(value: u32) -> ReasonCode {
    ReasonCode::new(value).unwrap()
}

fn woken(wake: Option<ReasonCode>, previous: Level, output: Level) -> LoopEvent {
    LoopEvent::Woken { wake, previous, output }
}

#[test]
fn loop_starts_idle() {
    assert_eq!(LoopState::new(), LoopState::IdleWaiting);
}

#[test]
fn button_press_while_low_drives_and_commits_high() {
    let mut shared = LedState::new();
    let mut pin = Level::Low;
    let state = LoopState::new();

    let (state, action) = state.step(woken(Some(loop_code(3)), shared.read(), pin));
    assert_eq!(state, LoopState::Reconciling { target: Level::High });
    assert_eq!(action, LoopAction::Drive { level: Level::High });
    shared.perform(action);
    assert_eq!(shared.read(), Level::Low);
    if let LoopAction::Drive { level } = action {
        pin = level;
    }

    let (state, action) = state.step(LoopEvent::Driven { outcome: Ok(()) });
    assert_eq!(state, LoopState::IdleWaiting);
    assert_eq!(action, LoopAction::Commit { level: Level::High });
    shared.perform(action);

    assert_eq!(pin, Level::High);
    assert_eq!(shared.read(), Level::High);
}

#[test]
fn second_button_press_goes_back_to_low() {
    let mut shared = LedState { led: Level::High };
    let (state, action) = LoopState::IdleWaiting.step(woken(Some(loop_code(3)), Level::High, Level::High));
    assert_eq!(action, LoopAction::Drive { level: Level::Low });
    let (state, action) = state.step(LoopEvent::Driven { outcome: Ok(()) });
    shared.perform(action);
    assert_eq!(state, LoopState::IdleWaiting);
    assert_eq!(shared.read(), Level::Low);
}

#[test]
fn timeout_changes_nothing() {
    for previous in [Level::Low, Level::High] {
        for output in [Level::Low, Level::High] {
            let mut shared = LedState { led: previous };
            let (state, action) = LoopState::IdleWaiting.step(woken(None, previous, output));
            assert_eq!(state, LoopState::IdleWaiting);
            assert_eq!(action, LoopAction::Wait);
            shared.perform(action);
            assert_eq!(shared.read(), previous);
        }
    }
}

#[test]
fn level_already_on_the_pin_is_committed_without_driving() {
    let mut shared = LedState { led: Level::Low };
    let (state, action) = LoopState::IdleWaiting.step(woken(Some(loop_code(2)), Level::Low, Level::High));
    assert_eq!(state, LoopState::IdleWaiting);
    assert_eq!(action, LoopAction::Commit { level: Level::High });
    shared.perform(action);
    assert_eq!(shared.read(), Level::High);
}

#[test]
fn unknown_code_turns_the_led_off() {
    let (state, action) = LoopState::IdleWaiting.step(woken(Some(loop_code(9)), Level::High, Level::High));
    assert_eq!(state, LoopState::Reconciling { target: Level::Low });
    assert_eq!(action, LoopAction::Drive { level: Level::Low });
}

#[test]
fn driver_failure_halts_without_commit() {
    let mut shared = LedState { led: Level::Low };
    let (state, action) = LoopState::IdleWaiting.step(woken(Some(loop_code(2)), Level::Low, Level::Low));
    assert_eq!(action, LoopAction::Drive { level: Level::High });
    let (state, action) = state.step(LoopEvent::Driven { outcome: Err(DriverError) });
    assert_eq!(state, LoopState::Halted);
    assert_eq!(action, LoopAction::Halt);
    shared.perform(action);
    assert_eq!(shared.read(), Level::Low);
}

#[test]
fn halted_loop_stays_halted() {
    let events = [
        woken(Some(loop_code(1)), Level::Low, Level::High),
        woken(None, Level::High, Level::High),
        LoopEvent::Driven { outcome: Ok(()) },
        LoopEvent::Driven { outcome: Err(DriverError) },
    ];
    for event in events {
        assert_eq!(LoopState::Halted.step(event), (LoopState::Halted, LoopAction::Halt));
    }
}

#[test]
fn unexpected_events_are_ignored() {
    assert_eq!(
        LoopState::IdleWaiting.step(LoopEvent::Driven { outcome: Ok(()) }),
        (LoopState::IdleWaiting, LoopAction::Wait)
    );
    assert_eq!(
        LoopState::IdleWaiting.step(LoopEvent::Driven { outcome: Err(DriverError) }),
        (LoopState::IdleWaiting, LoopAction::Wait)
    );
    let busy = LoopState::Reconciling { target: Level::High };
    assert_eq!(
        busy.step(woken(Some(loop_code(1)), Level::Low, Level::Low)),
        (busy, LoopAction::Drive { level: Level::High })
    );
}

#[test]
fn perform_writes_only_on_commit() {
    for start in [Level::Low, Level::High] {
        for action in [LoopAction::Wait, LoopAction::Halt, LoopAction::Drive { level: start.invert() }] {
            let mut shared = LedState { led: start };
            shared.perform(action);
            assert_eq!(shared.read(), start);
        }
        let mut shared = LedState { led: start };
        shared.perform(LoopAction::Commit { level: start.invert() });
        assert_eq!(shared.read(), start.invert());
    }
}

#[test]
fn coalesced_posts_reach_the_loop_as_the_last_code() {
    let mut slot = SignalSlot::new();
    slot.post(loop_code(2));
    slot.post(loop_code(3));
    let mut shared = LedState { led: Level::High };
    let wake = slot.take();
    assert_eq!(wake, Some(loop_code(3)));
    let (state, action) = LoopState::IdleWaiting.step(woken(wake, shared.read(), Level::High));
    assert_eq!(action, LoopAction::Drive { level: Level::Low });
    let (_, action) = state.step(LoopEvent::Driven { outcome: Ok(()) });
    shared.perform(action);
    assert_eq!(shared.read(), Level::Low);
    assert_eq!(slot.take(), None);
}
