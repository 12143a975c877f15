//! The local register: the node's own copy of the synchronized value.
//!
//! This type is the library's model of what the external provider currently
//! holds: the process around the library mirrors every call here onto the
//! real provider (an OS clipboard, a file, or similar) and keeps the two in
//! step. The logic worth verifying is the idempotent write: a write of the
//! value already held replaces nothing, reports `false`, and so gives the
//! provider no redundant side effect — which is also what keeps the change
//! detection from re-detecting its own write as a change.

use vstd::prelude::*;

verus! {

/// The register content after a write of `requested` over `current`.
pub open spec fn set_result(current: Seq<char>, requested: Seq<char>) -> Seq<char> {
    requested
}

/// Whether a write of `requested` over `current` replaces anything.
pub open spec fn set_replaced(current: Seq<char>, requested: Seq<char>) -> bool {
    current != requested
}

/// The node's local register. Its view is the register's content.
pub struct LocalClipboard {
    content: String,
}

impl View for LocalClipboard {
    type V = Seq<char>;

    closed spec fn view(&self) -> Seq<char> {
        self.content@
    }
}

impl LocalClipboard {
    /// A register holding `initial`.
    pub fn new(initial: String) -> (c: Self)
        ensures
            c@ == initial@,
    {
        LocalClipboard { content: initial }
    }

    /// Snapshot of the current content.
    pub fn get(&self) -> (r: String)
        ensures
            r@ == self@,
    {
        self.content.clone()
    }

    /// Idempotent write: compares first, replaces only on a difference, and
    /// reports whether it replaced anything.
    pub fn set(&mut self, content: String) -> (replaced: bool)
        ensures
            final(self)@ == set_result(old(self)@, content@),
            replaced == set_replaced(old(self)@, content@),
    {
        if self.content == content {
            false
        } else {
            self.content = content;
            true
        }
    }
}

/// Idempotent write: for every content and every value `v`, the first write
/// of `v` replaces exactly when the content differed, and a second write of
/// `v` right after never replaces anything.
pub proof fn lemma_set_idempotent(current: Seq<char>, v: Seq<char>)
    ensures
        set_replaced(current, v) == (current != v),
        !set_replaced(set_result(current, v), v),
{
}

} // verus!
