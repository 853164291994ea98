//! Model of the one-shot completion bridge.
//!
//! Both native flows wrapped by this backend (the calendar permission dialog
//! and the asynchronous metadata search) register a callback with a native
//! framework and block until a single value arrives through a
//! single-producer/single-consumer channel.  The producing side keeps its
//! sender inside an `Option` and takes it out on first use, so at most one
//! value is ever produced per invocation.  `OneShotBridge` captures exactly
//! that discipline: `deliver` succeeds at most once over the bridge's whole
//! life, and what the consuming side takes is the value of that single
//! successful delivery.

use vstd::prelude::*;

verus! {

/// The producing half's state paired with the value in flight.
pub struct OneShotBridge<T> {
    sender_present: bool,
    value: Option<T>,
}

impl<T> OneShotBridge<T> {
    /// The producing side can still deliver a value.
    pub closed spec fn can_deliver(self) -> bool {
        self.sender_present
    }

    /// The value delivered and not yet consumed, if any.
    pub closed spec fn pending_value(self) -> Option<T> {
        self.value
    }

    /// A delivered value can only exist once the sender is spent.
    pub closed spec fn wf(self) -> bool {
        self.value is Some ==> !self.sender_present
    }

    /// A fresh bridge: sender armed, nothing delivered.
    pub fn new() -> (r: Self)
        ensures
            r.wf(),
            r.can_deliver(),
            r.pending_value() is None,
    {
        OneShotBridge { sender_present: true, value: None }
    }

    /// The completion callback fires: the first invocation consumes the
    /// sender and stores its value; every later invocation is ignored.
    pub fn deliver(&mut self, v: T) -> (accepted: bool)
        requires
            old(self).wf(),
        ensures
            final(self).wf(),
            accepted == old(self).can_deliver(),
            !final(self).can_deliver(),
            accepted ==> final(self).pending_value() == Some(v),
            !accepted ==> final(self).pending_value() == old(self).pending_value(),
    {
        if self.sender_present {
            self.sender_present = false;
            self.value = Some(v);
            true
        } else {
            false
        }
    }

    /// The consuming side collects the delivered value, leaving the bridge
    /// spent either way.
    pub fn take(&mut self) -> (r: Option<T>)
        requires
            old(self).wf(),
        ensures
            final(self).wf(),
            r == old(self).pending_value(),
            final(self).pending_value() is None,
            final(self).can_deliver() == old(self).can_deliver(),
    {
        let mut v: Option<T> = None;
        core::mem::swap(&mut v, &mut self.value);
        v
    }
}

} // verus!
