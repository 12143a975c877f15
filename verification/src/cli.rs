//! The two roles a process can take when it starts a session.

use vstd::prelude::*;

verus! {

/// How the process is invoked: one node serves on a port, the other
/// connects to it. The argument-parsing front end converts its own
/// command-line type into this one.
pub enum Cli {
    /// Run as a server.
    Server { port: u16 },
    /// Run as a client, connecting to `address`.
    Client { address: String },
}

} // verus!
