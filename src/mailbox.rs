//! One-slot handoff where the freshest value wins.

use vstd::prelude::*;

verus! {

/// The slot after `value` is sent to a slot holding `held`.
pub open spec fn sent<T>(held: Option<T>, value: T) -> Option<T> {
    Some(value)
}

/// What a receive from a slot holding `held` returns, and the slot after it.
pub open spec fn received<T>(held: Option<T>) -> (Option<T>, Option<T>) {
    (held, None)
}

/// Holds at most one undelivered value; a new value replaces an undelivered one.
///
/// The telemetry path hands samples from the reader to the consumer through
/// one of these, and the command path hands the pending device command back.
pub struct Mailbox<T> {
    slot: Option<T>,
}

impl<T> View for Mailbox<T> {
    type V = Option<T>;

    /// The undelivered value, if any.
    closed spec fn view(&self) -> Option<T> {
        self.slot
    }
}

impl<T> Mailbox<T> {
    pub fn new() -> (m: Mailbox<T>)
        ensures
            m@ is None,
    {
        Mailbox { slot: None }
    }

    /// Places `value` in the slot, dropping an undelivered older value.
    pub fn send(&mut self, value: T)
        ensures
            final(self)@ == sent(old(self)@, value),
    {
        self.slot = Some(value);
    }

    /// Empties the slot and returns what it held; never waits.
    pub fn try_receive(&mut self) -> (r: Option<T>)
        ensures
            (r, final(self)@) == received(old(self)@),
    {
        self.slot.take()
    }

    /// Whether a value waits to be received.
    pub fn has_value(&self) -> (r: bool)
        ensures
            r == self@ is Some,
    {
        self.slot.is_some()
    }
}

/// Freshest-wins law: whatever the slot held, sending `a` and then `b` with no
/// receive in between makes the next receive return exactly `b` and leave the
/// slot empty; `a` is not queued.
pub proof fn lemma_freshest_wins<T>(held: Option<T>, a: T, b: T)
    ensures
        received(sent(sent(held, a), b)) == (Some(b), None::<T>),
{
}

} // verus!
