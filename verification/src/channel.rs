//! A single-slot setpoint mailbox.
//!
//! One writer (the console reader) and one reader (the control loop) share
//! this slot; the binary guards it with a lock so a write and a read-and-clear
//! never interleave. It is not a queue: a write before the loop drains the
//! previous value overwrites it, last write wins.

use vstd::prelude::*;

verus! {

/// A single-slot mailbox carrying an operator-issued setpoint change, in
/// micro-units, toward the control loop.
pub struct SetpointUpdate {
    pub value: i64,
    pub pending: bool,
}

impl SetpointUpdate {
    /// The slot state after a write of `value`: the value is stored and the
    /// slot is marked pending, whatever it held before.
    pub open spec fn written(self, value: i64) -> Self {
        SetpointUpdate { value, pending: true }
    }

    /// The slot state after a read-and-clear: the pending mark is gone, the
    /// stored value stays behind (and is no longer observable through
    /// `take_if_ready`).
    pub open spec fn drained(self) -> Self {
        SetpointUpdate { pending: false, ..self }
    }

    /// What a read-and-clear of this slot returns: the stored value if the
    /// slot is pending, nothing otherwise.
    pub open spec fn peek(self) -> Option<i64> {
        if self.pending {
            Some(self.value)
        } else {
            None
        }
    }

    /// An empty slot holding `initial` with nothing pending.
    pub fn new(initial: i64) -> (channel: Self)
        ensures
            channel.value == initial,
            !channel.pending,
    {
        SetpointUpdate { value: initial, pending: false }
    }

    /// Store `value` and mark the slot pending. Always succeeds: overwrite
    /// semantics, no backpressure, no queue.
    pub fn write(&mut self, value: i64)
        ensures
            *final(self) == old(self).written(value),
    {
        self.value = value;
        self.pending = true;
    }

    /// If a value is pending, clear the pending mark and return the value;
    /// otherwise return nothing and leave the slot as it is.
    pub fn take_if_ready(&mut self) -> (taken: Option<i64>)
        ensures
            taken == old(self).peek(),
            *final(self) == old(self).drained(),
    {
        if self.pending {
            self.pending = false;
            Some(self.value)
        } else {
            None
        }
    }
}

/// A write followed immediately by a read returns the written value and
/// leaves the slot not pending.
pub proof fn lemma_write_then_take(channel: SetpointUpdate, value: i64)
    ensures
        channel.written(value).peek() == Some(value),
        !channel.written(value).drained().pending,
{
}

/// A read with no prior write returns nothing and leaves the slot unchanged.
pub proof fn lemma_take_when_empty(channel: SetpointUpdate)
    requires
        !channel.pending,
    ensures
        channel.peek() == Option::<i64>::None,
        channel.drained() == channel,
{
}

/// Two writes before any read leave only the second value retrievable:
/// overwrite, not a queue.
pub proof fn lemma_overwrite(channel: SetpointUpdate, first: i64, second: i64)
    ensures
        channel.written(first).written(second) == channel.written(second),
        channel.written(first).written(second).peek() == Some(second),
{
}

} // verus!
