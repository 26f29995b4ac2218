//! A one-shot result slot shared by every caller of the same batch.
//!
//! The slot transitions `Empty -> Fired(value)` exactly once; once fired,
//! every observer reads the same value, and `peek` is stable. Waiting for
//! the transition is the business of the surrounding runtime: an async
//! wrapper parks its receivers on a notification and polls [`peek`] after
//! it; the producer in this crate keeps each fired slot and lets callers
//! redeem their tags against it.
//!
//! [`peek`]: BroadcastOnce::peek

use vstd::prelude::*;

verus! {

/// One-shot cell: empty until `broadcast` fires it with a value.
#[derive(Debug)]
pub struct BroadcastOnce<V> {
    /// The value the slot fired with, if it has.
    pub value: Option<V>,
}

impl<V> BroadcastOnce<V> {
    /// Whether the slot has fired.
    pub open spec fn fired(self) -> bool {
        self.value is Some
    }

    /// The value the slot fired with.
    pub open spec fn value_spec(self) -> Option<V> {
        self.value
    }

    /// A fresh, empty slot.
    pub fn new() -> (r: Self)
        ensures
            !r.fired(),
    {
        BroadcastOnce { value: None }
    }

    /// Fires the slot. A slot fires at most once: firing requires a slot
    /// that has not fired yet, and afterwards the slot holds `v` for good.
    pub fn broadcast(&mut self, v: V)
        requires
            !old(self).fired(),
        ensures
            final(self).fired(),
            final(self).value_spec() == Some(v),
    {
        self.value = Some(v);
    }

    /// Observes the slot without changing it: `Some` exactly when the slot
    /// has fired, and then always the value it fired with.
    pub fn peek(&self) -> (r: Option<&V>)
        ensures
            match r {
                Some(v) => self.fired() && self.value_spec() == Some(*v),
                None => !self.fired(),
            },
    {
        match &self.value {
            Some(v) => Some(v),
            None => None,
        }
    }

    /// Takes the slot out, leaving a fresh empty one behind; receivers of
    /// the old slot keep observing the old value through it.
    pub fn take(&mut self) -> (r: Self)
        ensures
            !final(self).fired(),
            r == *old(self),
    {
        let old_slot = BroadcastOnce { value: self.value.take() };
        proof {
            assert(old_slot == *old(self));
        }
        old_slot
    }
}

impl<V> Default for BroadcastOnce<V> {
    /// An empty slot, as [`BroadcastOnce::new`] builds it.
    fn default() -> (r: Self)
        ensures
            !r.fired(),
    {
        BroadcastOnce { value: None }
    }
}

/// A slot fires at most once and its value is then stable: every
/// observation of a fired slot yields the value it fired with, so any two
/// receivers of the same slot observe the same value.
pub proof fn lemma_broadcast_once_agreement<V>(slot: BroadcastOnce<V>, a: V, b: V)
    requires
        slot.fired(),
        slot.value_spec() == Some(a),
        slot.value_spec() == Some(b),
    ensures
        a == b,
{
}

} // verus!
