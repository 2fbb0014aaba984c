//! The device state that every part of the program shares: the colour last
//! sent to the RGB LED, or the level last sent to the plain LED.
//!
//! A state is written only together with the LED: the caller commands the
//! driver, then hands the outcome to the write, which takes effect only if
//! the driver succeeded. The program keeps each state behind one mutex, so
//! that writes happen one after the other; the laws at the end of this
//! module speak of writes in that order.

use std::sync::{Arc, Mutex};
use vstd::prelude::*;

use crate::color::Rgb;
use crate::level::Level;

verus! {

/// `std::sync::Mutex`, of which Verus sees nothing but the type.
#[verifier::external_type_specification]
#[verifier::external_body]
#[verifier::reject_recursive_types(T)]
pub struct ExMutex<T: ?Sized>(Mutex<T>);

/// The colour state that a mutex was made with. This is not what the mutex
/// holds later: that changes under a shared reference and has no name.
pub uninterp spec fn made_with(lock: Mutex<AppState>) -> AppState;

/// The level state that a mutex was made with. This is not what the mutex
/// holds later: that changes under a shared reference and has no name.
pub uninterp spec fn led_made_with(lock: Mutex<LedState>) -> LedState;

/// The LED driver did not carry out a command.
#[derive(Clone, Copy, Debug, PartialEq, Eq, Structural)]
pub struct DriverError;

/// State of the RGB LED: the colour it was last commanded to show.
#[derive(Clone, Copy, Debug, PartialEq, Eq, Structural)]
pub struct AppState {
    pub rgb_val: Rgb,
}

/// State of the plain LED: the level it was last commanded to.
#[derive(Clone, Copy, Debug, PartialEq, Eq, Structural)]
pub struct LedState {
    pub led: Level,
}

/// One attempt to write a colour: the colour, and what the driver answered
/// when it was commanded to show it.
pub type ColorWrite = (Rgb, Result<(), DriverError>);

/// Calls `Mutex::new`, which creates an unlocked mutex around the value it
/// is given: the mutex was made with `state`. Nothing is claimed of what it
/// holds once it is shared.
#[verifier::external_body]
fn lock_of(state: AppState) -> (out: Mutex<AppState>)
    ensures
        made_with(out) == state,
{
    Mutex::new(state)
}

/// Calls `Mutex::new`, which creates an unlocked mutex around the value it
/// is given: the mutex was made with `state`. Nothing is claimed of what it
/// holds once it is shared.
#[verifier::external_body]
fn led_lock_of(state: LedState) -> (out: Mutex<LedState>)
    ensures
        led_made_with(out) == state,
{
    Mutex::new(state)
}

impl AppState {
    /// The state after an attempt to write `rgb`: `rgb` if the driver
    /// succeeded, the state as it was if not.
    pub open spec fn written(self, rgb: Rgb, driven: Result<(), DriverError>) -> AppState {
        if driven is Ok {
            AppState { rgb_val: rgb }
        } else {
            self
        }
    }

    /// The state after a history of attempts, oldest first.
    pub open spec fn replayed(self, writes: Seq<ColorWrite>) -> AppState
        decreases writes.len(),
    {
        if writes.len() == 0 {
            self
        } else {
            self.replayed(writes.drop_last()).written(writes.last().0, writes.last().1)
        }
    }

    /// Creates the state once the driver was commanded to show `rgb_val`.
    ///
    /// `driven` is the driver's answer to that command. The state exists
    /// only if the driver succeeded; its error is handed on otherwise.
    pub fn try_new(rgb_val: Rgb, driven: Result<(), DriverError>) -> (out: Result<
        AppState,
        DriverError,
    >)
        ensures
            out == match driven {
                Ok(_) => Ok::<AppState, DriverError>(AppState { rgb_val }),
                Err(error) => Err(error),
            },
    {
        match driven {
            Ok(_) => Ok(AppState { rgb_val }),
            Err(error) => Err(error),
        }
    }

    /// Puts the state behind a mutex that the parts of the program share.
    ///
    /// The mutex is made with this very state, so the first reader finds it
    /// there. What the mutex holds after later writes is not part of the
    /// contract.
    pub fn shared(self) -> (out: Arc<Mutex<AppState>>)
        ensures
            made_with(*out) == self,
    {
        Arc::new(lock_of(self))
    }

    /// The current colour.
    pub fn read(&self) -> (out: Rgb)
        ensures
            out == self.rgb_val,
    {
        self.rgb_val
    }

    /// Records `rgb` once the driver was commanded to show it.
    ///
    /// `driven` is the driver's answer to that command. If the driver
    /// succeeded the state holds `rgb`; if it failed the state is unchanged
    /// and the driver's error is handed on.
    pub fn set_rgb(&mut self, rgb: Rgb, driven: Result<(), DriverError>) -> (out: Result<
        (),
        DriverError,
    >)
        ensures
            out == driven,
            *final(self) == old(self).written(rgb, driven),
    {
        if driven.is_ok() {
            self.rgb_val = rgb;
        }
        driven
    }
}

impl LedState {
    /// The state after a write of `level`.
    pub open spec fn written(self, level: Level) -> LedState {
        LedState { led: level }
    }

    /// The state after a history of writes, oldest first.
    pub open spec fn replayed(self, writes: Seq<Level>) -> LedState
        decreases writes.len(),
    {
        if writes.len() == 0 {
            self
        } else {
            self.replayed(writes.drop_last()).written(writes.last())
        }
    }

    /// The state a device starts with: the LED is off.
    pub fn new() -> (out: LedState)
        ensures
            out.led == Level::Low,
    {
        LedState { led: Level::Low }
    }

    /// Puts the state behind a mutex that the parts of the program share.
    ///
    /// The mutex is made with this very state, so the first reader finds it
    /// there. What the mutex holds after later writes is not part of the
    /// contract.
    pub fn shared(self) -> (out: Arc<Mutex<LedState>>)
        ensures
            led_made_with(*out) == self,
    {
        Arc::new(led_lock_of(self))
    }

    /// The current level.
    pub fn read(&self) -> (out: Level)
        ensures
            out == self.led,
    {
        self.led
    }

    /// Replaces the level.
    pub fn write(&mut self, level: Level)
        ensures
            *final(self) == old(self).written(level),
    {
        self.led = level;
    }
}

impl Default for LedState {
    fn default() -> (out: LedState)
        ensures
            out.led == Level::Low,
    {
        LedState::new()
    }
}

/// No stale reads of the colour: once attempt `k` of a history has succeeded,
/// a read after any `n > k` attempts of it returns the colour of a
/// successful attempt that is `k` or a later one.
pub proof fn color_read_is_not_stale(start: AppState, writes: Seq<ColorWrite>, k: int, n: int)
    requires
        0 <= k < n <= writes.len(),
        writes[k].1 is Ok,
    ensures
        exists|j: int|
            k <= j < n && (#[trigger] writes[j]).1 is Ok && start.replayed(writes.take(n)).rgb_val
                == writes[j].0,
    decreases n,
{
    let seen = writes.take(n);
    assert(seen.last() == writes[n - 1]);
    assert(seen.drop_last() =~= writes.take(n - 1));
    if writes[n - 1].1 is Err {
        color_read_is_not_stale(start, writes, k, n - 1);
        let j = choose|j: int|
            k <= j < n - 1 && (#[trigger] writes[j]).1 is Ok && start.replayed(
                writes.take(n - 1),
            ).rgb_val == writes[j].0;
        assert(k <= j < n && writes[j].1 is Ok && start.replayed(seen).rgb_val == writes[j].0);
    }
}

/// A colour history without a successful attempt leaves the state as it was.
pub proof fn failed_writes_change_nothing(start: AppState, writes: Seq<ColorWrite>)
    requires
        forall|i: int| 0 <= i < writes.len() ==> (#[trigger] writes[i]).1 is Err,
    ensures
        start.replayed(writes) == start,
    decreases writes.len(),
{
    if writes.len() > 0 {
        failed_writes_change_nothing(start, writes.drop_last());
    }
}

/// The state never holds a colour that the driver did not show: after any
/// history it holds the colour it started with or the colour of an attempt
/// that the driver confirmed.
pub proof fn cached_color_was_driven(start: AppState, writes: Seq<ColorWrite>)
    ensures
        start.replayed(writes).rgb_val == start.rgb_val || exists|j: int|
            0 <= j < writes.len() && (#[trigger] writes[j]).1 is Ok && start.replayed(
                writes,
            ).rgb_val == writes[j].0,
    decreases writes.len(),
{
    if writes.len() > 0 {
        let earlier = writes.drop_last();
        cached_color_was_driven(start, earlier);
        if writes.last().1 is Ok {
            assert(start.replayed(writes).rgb_val == writes[writes.len() - 1].0);
        } else if start.replayed(earlier).rgb_val != start.rgb_val {
            let j = choose|j: int|
                0 <= j < earlier.len() && (#[trigger] earlier[j]).1 is Ok && start.replayed(
                    earlier,
                ).rgb_val == earlier[j].0;
            assert(writes[j] == earlier[j]);
        }
    }
}

/// No stale reads of the level: a read after `n > 0` writes returns the
/// level of the last of them.
pub proof fn level_read_is_latest(start: LedState, writes: Seq<Level>, n: int)
    requires
        0 < n <= writes.len(),
    ensures
        start.replayed(writes.take(n)).led == writes[n - 1],
{
    assert(writes.take(n).last() == writes[n - 1]);
}

} // verus!
