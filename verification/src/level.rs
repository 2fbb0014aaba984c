//! The two-valued output level of the plain LED, and the rule by which a
//! notification changes it.
//!
//! A notification carries a reason code, a small non-zero number. The code is
//! not the new level: code 3 asks for the opposite of the level that was last
//! committed, so the rule takes that level as well.

use vstd::prelude::*;

verus! {

/// Reason code that forces the level low.
pub const FORCE_LOW: u32 = 1;

/// Reason code that forces the level high.
pub const FORCE_HIGH: u32 = 2;

/// Reason code that inverts the previous level.
pub const INVERT: u32 = 3;

/// Logical level of the output pin.
#[derive(Clone, Copy, Debug, PartialEq, Eq, Structural)]
pub enum Level {
    Low,
    High,
}

/// The payload of a notification: a number that is never zero.
#[derive(Clone, Copy, Debug, PartialEq, Eq, Structural)]
pub struct ReasonCode {
    value: u32,
}

/// The level that a reason code asks for, given the level before it: 1 forces
/// low, 2 forces high, 3 inverts, and any other code is taken as low.
pub open spec fn reconciled(code: u32, previous: Level) -> Level {
    if code == FORCE_HIGH {
        Level::High
    } else if code == INVERT {
        previous.inverted()
    } else {
        Level::Low
    }
}

impl Level {
    /// The opposite level.
    pub open spec fn inverted(self) -> Level {
        match self {
            Level::Low => Level::High,
            Level::High => Level::Low,
        }
    }

    /// Returns the opposite level.
    pub fn invert(self) -> (out: Level)
        ensures
            out == self.inverted(),
    {
        match self {
            Level::Low => Level::High,
            Level::High => Level::Low,
        }
    }

    /// The number of the reason code that forces this level.
    pub open spec fn forcing(self) -> u32 {
        match self {
            Level::Low => FORCE_LOW,
            Level::High => FORCE_HIGH,
        }
    }

    /// The reason code that forces this level whatever the level before.
    pub fn forcing_code(self) -> (out: ReasonCode)
        ensures
            out.value() == self.forcing(),
    {
        match self {
            Level::Low => ReasonCode { value: FORCE_LOW },
            Level::High => ReasonCode { value: FORCE_HIGH },
        }
    }
}

impl ReasonCode {
    #[verifier::type_invariant]
    spec fn is_nonzero(self) -> bool {
        self.value != 0
    }

    /// The number that the code carries.
    pub closed spec fn value(self) -> u32 {
        self.value
    }

    /// Makes a reason code of a number; zero is no reason code.
    pub fn new(value: u32) -> (out: Option<ReasonCode>)
        ensures
            value == 0 ==> out is None,
            value != 0 ==> out is Some && out.unwrap().value() == value,
    {
        if value == 0 {
            None
        } else {
            Some(ReasonCode { value })
        }
    }

    /// The code that inverts the previous level.
    pub fn invert() -> (out: ReasonCode)
        ensures
            out.value() == INVERT,
    {
        ReasonCode { value: INVERT }
    }

    /// The number that the code carries, which is not zero.
    pub fn get(&self) -> (out: u32)
        ensures
            out == self.value(),
            out != 0,
    {
        proof {
            use_type_invariant(self);
        }
        self.value
    }
}

/// Computes the level that a notification asks for.
///
/// `previous` is the level that was last committed. Code 1 gives low, code 2
/// gives high, code 3 gives the opposite of `previous`, and any other code
/// gives low.
pub fn reconcile(code: ReasonCode, previous: Level) -> (out: Level)
    ensures
        out == reconciled(code.value(), previous),
{
    let value = code.get();
    if value == FORCE_HIGH {
        Level::High
    } else if value == INVERT {
        previous.invert()
    } else {
        Level::Low
    }
}

/// The rule, code by code: 1 gives low, 2 gives high, 3 gives the opposite
/// of the previous level, every other code gives low.
pub proof fn reconciled_by_code(code: u32, previous: Level)
    ensures
        code == 1 ==> reconciled(code, previous) == Level::Low,
        code == 2 ==> reconciled(code, previous) == Level::High,
        code == 3 ==> reconciled(code, previous) == previous.inverted(),
        code != 1 && code != 2 && code != 3 ==> reconciled(code, previous) == Level::Low,
{
}

/// Forcing is idempotent: a code other than 3, applied to its own result,
/// gives that result again. In particular this holds of codes 1 and 2.
pub proof fn forcing_twice_is_forcing_once(code: u32, previous: Level)
    requires
        code != INVERT,
    ensures
        reconciled(code, reconciled(code, previous)) == reconciled(code, previous),
{
}

/// Inverting twice gives the level back.
pub proof fn inverting_twice_restores(previous: Level)
    ensures
        reconciled(INVERT, reconciled(INVERT, previous)) == previous,
{
}

/// The code that forces a level gives that level whatever came before.
pub proof fn forcing_code_forces(level: Level, previous: Level)
    ensures
        reconciled(level.forcing(), previous) == level,
{
}

} // verus!
