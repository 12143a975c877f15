//! The session's error taxonomy.

use vstd::prelude::*;

verus! {

/// A fatal condition for the session. Either kind is escalated by
/// triggering the shared cancellation signal, so a failure in one loop
/// deterministically stops the other; the first recorded error becomes the
/// session's terminal result.
#[derive(Clone, Copy, PartialEq, Eq, Structural, Debug)]
pub enum SyncError {
    /// The local register provider could not be read or written.
    Provider,
    /// The push call failed or the streaming subscription broke.
    Transport,
}

} // verus!
