//! A replicated-register synchronization engine for a clipboard-like text
//! register shared by exactly two nodes.
//!
//! The library holds the verified core: the coalescing single-slot channels,
//! the idempotent local register, the change-detection and remote-listen
//! decision logic, and the session lifecycle with its one-shot cancellation
//! signal. The surrounding process (timers, threads, the network transport,
//! and the real register provider) drives these state machines from outside:
//! it performs the waiting and the I/O, and hands every observed value or
//! failure to a step function in this crate.

pub mod cancel;
pub mod cli;
pub mod clipboard;
pub mod errors;
pub mod local_clipboard;
pub mod remote_clipboard;
pub mod slot;
