//! The hand-off between the interrupt and the control loop: one slot that
//! holds at most one pending reason code.
//!
//! A post never waits and never fails. It replaces whatever is pending, so
//! codes posted in quick succession coalesce and the consumer sees the last
//! of them only. The slot is no queue, and this is intended.

use vstd::prelude::*;

use crate::level::ReasonCode;

verus! {

/// The slot: empty, or holding the code that was posted last.
#[derive(Clone, Copy, Debug, PartialEq, Eq, Structural)]
pub struct SignalSlot {
    pub pending: Option<ReasonCode>,
}

impl SignalSlot {
    /// The slot after a post of `code`: it holds `code`, whatever it held.
    pub open spec fn posted(self, code: ReasonCode) -> SignalSlot {
        SignalSlot { pending: Some(code) }
    }

    /// The slot after a series of posts, oldest first.
    pub open spec fn posted_all(self, codes: Seq<ReasonCode>) -> SignalSlot
        decreases codes.len(),
    {
        if codes.len() == 0 {
            self
        } else {
            self.posted_all(codes.drop_last()).posted(codes.last())
        }
    }

    /// An empty slot.
    pub fn new() -> (out: SignalSlot)
        ensures
            out.pending is None,
    {
        SignalSlot { pending: None }
    }

    /// Posts a code. An older code that nobody has taken yet is overwritten.
    pub fn post(&mut self, code: ReasonCode)
        ensures
            *final(self) == old(self).posted(code),
    {
        self.pending = Some(code);
    }

    /// Takes the pending code, if there is one, and leaves the slot empty.
    ///
    /// This is what the consumer's wait comes back with: the code, or
    /// nothing when the wait timed out on an empty slot.
    pub fn take(&mut self) -> (out: Option<ReasonCode>)
        ensures
            out == old(self).pending,
            final(self).pending is None,
    {
        let out = self.pending;
        self.pending = None;
        out
    }
}

/// Posts coalesce: after one or more posts the slot holds the last code
/// posted and nothing else, whatever it held before and however many codes
/// came before the last.
pub proof fn posts_coalesce(slot: SignalSlot, codes: Seq<ReasonCode>)
    requires
        codes.len() > 0,
    ensures
        slot.posted_all(codes).pending == Some(codes.last()),
{
}

} // verus!
