//! The in-process mirror of the peer's register.
//!
//! Two independent coalescing slots: `to_remote` accepts locally detected
//! changes destined for the peer, `from_remote` yields the peer's changes as
//! they arrive. The directions share no state, so no cross-slot coordination
//! is needed; each slot's compare-and-swap is the only mutation.

use vstd::prelude::*;

use crate::slot::{publish_replaced, publish_spec, CoalescingSlot, SlotModel};

verus! {

/// Spec-level state of the mirror: one slot per direction.
#[verifier::ext_equal]
pub ghost struct RemoteModel {
    pub to_remote: SlotModel,
    pub from_remote: SlotModel,
}

/// The peer mirror: a send side and a receive side.
pub struct RemoteClipboard {
    to_remote: CoalescingSlot,
    from_remote: CoalescingSlot,
}

impl View for RemoteClipboard {
    type V = RemoteModel;

    closed spec fn view(&self) -> RemoteModel {
        RemoteModel { to_remote: self.to_remote@, from_remote: self.from_remote@ }
    }
}

impl RemoteClipboard {
    /// A mirror whose both directions start out holding `initial`.
    pub fn new(initial: String) -> (r: Self)
        ensures
            r@.to_remote.value == initial@,
            r@.to_remote.version == 0,
            r@.from_remote.value == initial@,
            r@.from_remote.version == 0,
    {
        let from_remote = CoalescingSlot::new(initial.clone());
        let to_remote = CoalescingSlot::new(initial);
        RemoteClipboard { to_remote, from_remote }
    }

    /// Push a locally originated change toward the peer: compare-and-swap
    /// into the send slot. Never blocks.
    pub fn set(&mut self, content: String) -> (replaced: bool)
        requires
            old(self)@.to_remote.version < u64::MAX as int,
        ensures
            final(self)@.to_remote == publish_spec(old(self)@.to_remote, content@),
            final(self)@.from_remote == old(self)@.from_remote,
            replaced == publish_replaced(old(self)@.to_remote, content@),
    {
        self.to_remote.publish(content)
    }

    /// A value arrived from the peer: compare-and-swap into the receive
    /// slot, reporting whether the value actually changed.
    pub fn apply_from_peer(&mut self, content: String) -> (replaced: bool)
        requires
            old(self)@.from_remote.version < u64::MAX as int,
        ensures
            final(self)@.from_remote == publish_spec(old(self)@.from_remote, content@),
            final(self)@.to_remote == old(self)@.to_remote,
            replaced == publish_replaced(old(self)@.from_remote, content@),
    {
        self.from_remote.publish(content)
    }

    /// Whether both version counters are still below their machine limit,
    /// that is, whether `set` and `apply_from_peer` may still be called.
    pub fn has_version_headroom(&self) -> (r: bool)
        ensures
            r == (self@.to_remote.version < u64::MAX as int && self@.from_remote.version
                < u64::MAX as int),
    {
        self.to_remote.version() < u64::MAX && self.from_remote.version() < u64::MAX
    }

    /// Non-blocking snapshot of the receive side, for bootstrap and
    /// diagnostics only.
    pub fn current(&self) -> (r: String)
        ensures
            r@ == self@.from_remote.value,
    {
        self.from_remote.current()
    }

    /// The next peer change an observer at version `seen` has not consumed
    /// yet, together with the version to remember. The suspension until a
    /// change exists happens outside the library; this read never blocks.
    pub fn get_new(&self, seen: u64) -> (r: Option<(String, u64)>)
        ensures
            match r {
                Some(p) => self@.from_remote.version > seen as int && p.0@
                    == self@.from_remote.value && p.1 as int == self@.from_remote.version,
                None => self@.from_remote.version <= seen as int,
            },
    {
        self.from_remote.observe(seen)
    }

    /// The next locally originated change the transport has not sent yet,
    /// together with the version to remember.
    pub fn take_outgoing(&self, seen: u64) -> (r: Option<(String, u64)>)
        ensures
            match r {
                Some(p) => self@.to_remote.version > seen as int && p.0@
                    == self@.to_remote.value && p.1 as int == self@.to_remote.version,
                None => self@.to_remote.version <= seen as int,
            },
    {
        self.to_remote.observe(seen)
    }
}

} // verus!
