//! The control loop as a state machine.
//!
//! The loop itself waits, reads and drives hardware, so it runs outside this
//! library. Here is every decision it takes: given the state of the loop and
//! what just happened, [`LoopState::step`] says what to do next. The caller
//! performs that action and comes back with the event it led to.
//!
//! One cycle goes: wait; on a notification compute the new level from the
//! code and the committed level; drive the LED if the pin is at another
//! level; commit the new level to the shared state; wait again. A wait that
//! times out changes nothing. A driver that fails halts the loop before
//! anything is committed.

use vstd::prelude::*;

use crate::app_state::{DriverError, LedState};
use crate::level::{reconcile, reconciled, Level, ReasonCode};

verus! {

/// Where the loop stands.
#[derive(Clone, Copy, Debug, PartialEq, Eq, Structural)]
pub enum LoopState {
    /// Waiting for a notification.
    IdleWaiting,
    /// A notification arrived and the driver has been commanded to `target`.
    Reconciling { target: Level },
    /// The driver failed; the loop does not go on.
    Halted,
}

/// What happened since the last action.
#[derive(Clone, Copy, Debug, PartialEq, Eq)]
pub enum LoopEvent {
    /// The wait came back, with a code or, on timeout, with none. `previous`
    /// is the committed level read at that moment, `output` the level on
    /// the pin.
    Woken { wake: Option<ReasonCode>, previous: Level, output: Level },
    /// The driver answered the last `Drive`.
    Driven { outcome: Result<(), DriverError> },
}

/// What the caller is to do next.
#[derive(Clone, Copy, Debug, PartialEq, Eq, Structural)]
pub enum LoopAction {
    /// Re-arm the interrupt and wait for a notification.
    Wait,
    /// Command the driver to `level` and report its answer as `Driven`.
    Drive { level: Level },
    /// Write `level` to the shared state, then re-arm the interrupt and wait.
    Commit { level: Level },
    /// Stop for good: the driver failed.
    Halt,
}

/// The state and the action that follow an event.
///
/// An event that the state does not expect is ignored: the state stays, and
/// the action is the one that the state is waiting on.
pub open spec fn next(state: LoopState, event: LoopEvent) -> (LoopState, LoopAction) {
    match state {
        LoopState::IdleWaiting => match event {
            LoopEvent::Woken { wake: Some(code), previous, output } => {
                let target = reconciled(code.value(), previous);
                if target != output {
                    (LoopState::Reconciling { target }, LoopAction::Drive { level: target })
                } else {
                    (LoopState::IdleWaiting, LoopAction::Commit { level: target })
                }
            },
            LoopEvent::Woken { wake: None, .. } => (LoopState::IdleWaiting, LoopAction::Wait),
            LoopEvent::Driven { .. } => (LoopState::IdleWaiting, LoopAction::Wait),
        },
        LoopState::Reconciling { target } => match event {
            LoopEvent::Driven { outcome: Ok(_) } => (
                LoopState::IdleWaiting,
                LoopAction::Commit { level: target },
            ),
            LoopEvent::Driven { outcome: Err(_) } => (LoopState::Halted, LoopAction::Halt),
            LoopEvent::Woken { .. } => (
                LoopState::Reconciling { target },
                LoopAction::Drive { level: target },
            ),
        },
        LoopState::Halted => (LoopState::Halted, LoopAction::Halt),
    }
}

/// The shared state after the caller has performed an action: a `Commit`
/// writes its level, every other action leaves the state alone.
pub open spec fn performed(state: LedState, action: LoopAction) -> LedState {
    match action {
        LoopAction::Commit { level } => state.written(level),
        _ => state,
    }
}

impl LoopState {
    /// The state a loop starts in.
    pub fn new() -> (out: LoopState)
        ensures
            out == LoopState::IdleWaiting,
    {
        LoopState::IdleWaiting
    }

    /// Takes one step: returns the state that follows `event` and the action
    /// to perform.
    pub fn step(self, event: LoopEvent) -> (out: (LoopState, LoopAction))
        ensures
            out == next(self, event),
    {
        match self {
            LoopState::IdleWaiting => match event {
                LoopEvent::Woken { wake: Some(code), previous, output } => {
                    let target = reconcile(code, previous);
                    if target != output {
                        (LoopState::Reconciling { target }, LoopAction::Drive { level: target })
                    } else {
                        (LoopState::IdleWaiting, LoopAction::Commit { level: target })
                    }
                },
                LoopEvent::Woken { wake: None, .. } => (LoopState::IdleWaiting, LoopAction::Wait),
                LoopEvent::Driven { .. } => (LoopState::IdleWaiting, LoopAction::Wait),
            },
            LoopState::Reconciling { target } => match event {
                LoopEvent::Driven { outcome: Ok(_) } => (
                    LoopState::IdleWaiting,
                    LoopAction::Commit { level: target },
                ),
                LoopEvent::Driven { outcome: Err(_) } => (LoopState::Halted, LoopAction::Halt),
                LoopEvent::Woken { .. } => (
                    LoopState::Reconciling { target },
                    LoopAction::Drive { level: target },
                ),
            },
            LoopState::Halted => (LoopState::Halted, LoopAction::Halt),
        }
    }
}

impl LedState {
    /// Performs the part of an action that concerns the shared state: a
    /// `Commit` writes its level, every other action changes nothing.
    pub fn perform(&mut self, action: LoopAction)
        ensures
            *final(self) == performed(*old(self), action),
    {
        match action {
            LoopAction::Commit { level } => self.write(level),
            _ => {},
        }
    }
}

/// A timeout changes nothing: the loop stays idle, asks only to wait again,
/// and the shared state is as it was.
pub proof fn timeout_retains_state(shared: LedState, previous: Level, output: Level)
    ensures
        ({
            let (state, action) = next(
                LoopState::IdleWaiting,
                LoopEvent::Woken { wake: None, previous, output },
            );
            state == LoopState::IdleWaiting && action == LoopAction::Wait && performed(
                shared,
                action,
            ) == shared
        }),
{
}

/// A full cycle with a working driver: from idle, a notification with
/// `code` while the shared state holds `shared.led` ends idle again with the
/// shared state at the reconciled level, and the driver was commanded to
/// that level exactly when the pin was at another.
pub proof fn cycle_commits_reconciled_level(shared: LedState, code: ReasonCode, output: Level)
    ensures
        ({
            let target = reconciled(code.value(), shared.led);
            let woken = LoopEvent::Woken { wake: Some(code), previous: shared.led, output };
            let (state, action) = next(LoopState::IdleWaiting, woken);
            if target == output {
                state == LoopState::IdleWaiting && performed(shared, action).led == target
            } else {
                let (end, last) = next(state, LoopEvent::Driven { outcome: Ok(()) });
                action == (LoopAction::Drive { level: target }) && performed(shared, action)
                    == shared && end == LoopState::IdleWaiting && performed(shared, last).led
                    == target
            }
        }),
{
}

/// A failed driver commits nothing: the step that takes the failure halts
/// the loop and leaves the shared state alone, and so does every step after
/// it.
pub proof fn driver_failure_commits_nothing(
    shared: LedState,
    target: Level,
    error: DriverError,
    later: LoopEvent,
)
    ensures
        ({
            let failed = LoopEvent::Driven { outcome: Err(error) };
            let (state, action) = next(LoopState::Reconciling { target }, failed);
            let (end, last) = next(state, later);
            state == LoopState::Halted && action == LoopAction::Halt && performed(shared, action)
                == shared && end == LoopState::Halted && last == LoopAction::Halt && performed(
                shared,
                last,
            ) == shared
        }),
{
}

/// Nothing is committed that was not driven: whenever a step asks for a
/// `Commit`, the level is either the one the pin is at already or the one
/// the driver has just confirmed.
pub proof fn commit_follows_the_pin(state: LoopState, event: LoopEvent)
    ensures
        next(state, event).1 matches LoopAction::Commit { level } ==> match state {
            LoopState::IdleWaiting => event matches LoopEvent::Woken { wake: Some(_), output, .. }
                && output == level,
            LoopState::Reconciling { target } => event matches LoopEvent::Driven { outcome: Ok(_) }
                && target == level,
            LoopState::Halted => false,
        },
{
}

} // verus!
