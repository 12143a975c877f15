//! A coalescing single-value slot with a version counter.
//!
//! The slot holds exactly one "current" value. A writer replaces the value
//! only when the new value differs from the current one (compare-and-swap on
//! equality), and every replacement bumps a version counter. An observer
//! remembers the last version it saw and is handed the current value exactly
//! when the counter has moved past that version.
//!
//! Losing intermediate values is intended, not a defect: the register models
//! cursor state, not an event log, so only the latest value is ever
//! meaningful, and a single slot bounds memory under bursts of writes.

use vstd::prelude::*;

verus! {

/// Spec-level state of a coalescing slot: the current value and how many
/// times that value has been replaced since the slot was created.
#[verifier::ext_equal]
pub ghost struct SlotModel {
    pub value: Seq<char>,
    pub version: int,
}

/// The slot state after publishing `v`: unchanged when `v` already sits in
/// the slot, otherwise the value becomes `v` and the version advances by one.
pub open spec fn publish_spec(s: SlotModel, v: Seq<char>) -> SlotModel {
    if s.value == v {
        s
    } else {
        SlotModel { value: v, version: s.version + 1 }
    }
}

/// Whether publishing `v` actually replaces the slot's value.
pub open spec fn publish_replaced(s: SlotModel, v: Seq<char>) -> bool {
    s.value != v
}

/// A single-slot "latest value" holder.
pub struct CoalescingSlot {
    value: String,
    version: u64,
}

impl View for CoalescingSlot {
    type V = SlotModel;

    closed spec fn view(&self) -> SlotModel {
        SlotModel { value: self.value@, version: self.version as int }
    }
}

impl CoalescingSlot {
    /// A fresh slot holding `initial`, with no replacement seen yet.
    pub fn new(initial: String) -> (s: Self)
        ensures
            s@.value == initial@,
            s@.version == 0,
    {
        CoalescingSlot { value: initial, version: 0 }
    }

    /// Compare-and-swap write: replaces the value only when `v` differs from
    /// the current value, and reports whether it did.
    pub fn publish(&mut self, v: String) -> (replaced: bool)
        requires
            old(self)@.version < u64::MAX as int,
        ensures
            final(self)@ == publish_spec(old(self)@, v@),
            replaced == publish_replaced(old(self)@, v@),
    {
        if self.value == v {
            false
        } else {
            self.value = v;
            self.version = self.version + 1;
            true
        }
    }

    /// The slot's replacement counter.
    pub fn version(&self) -> (r: u64)
        ensures
            r as int == self@.version,
    {
        self.version
    }

    /// Non-blocking snapshot of the current value.
    pub fn current(&self) -> (r: String)
        ensures
            r@ == self@.value,
    {
        self.value.clone()
    }

    /// Observer read: yields the current value and version exactly when the
    /// slot's version has moved past the version the observer saw last.
    pub fn observe(&self, seen: u64) -> (r: Option<(String, u64)>)
        ensures
            match r {
                Some(p) => self@.version > seen as int && p.0@ == self@.value && p.1 as int
                    == self@.version,
                None => self@.version <= seen as int,
            },
    {
        if self.version > seen {
            Some((self.value.clone(), self.version))
        } else {
            None
        }
    }
}

/// Latest wins: publishing `v1`, `v2`, `v3` in a row, with no observer read
/// in between, leaves exactly `v3` in the slot, so an observer that reads
/// afterwards is handed `v3` and never the overwritten intermediates.
pub proof fn lemma_latest_wins(s: SlotModel, v1: Seq<char>, v2: Seq<char>, v3: Seq<char>)
    ensures
        publish_spec(publish_spec(publish_spec(s, v1), v2), v3).value == v3,
{
}

} // verus!
