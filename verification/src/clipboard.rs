//! The session engine: change detection, remote listening, the transport
//! adapter's bookkeeping, and lifecycle coordination.
//!
//! A `Clipboard` owns the whole session state. The process around the
//! library runs the concurrent activities — the poll timer, the wait on the
//! receive slot, the network calls — and on every wakeup hands what it
//! observed to one of the step functions here, which makes every decision:
//! whether a read value is a genuine change, whether an arriving peer value
//! replaces anything, when a loop stops, and what the terminal result of the
//! session is. Each step's effect on the session state is pinned down by a
//! spec-level step function.

use vstd::prelude::*;

use crate::cancel::CancelFlag;
use crate::errors::SyncError;
use crate::local_clipboard::LocalClipboard;
use crate::remote_clipboard::RemoteClipboard;
use crate::slot::{publish_replaced, publish_spec, SlotModel};

verus! {

/// Spec-level state of a session.
#[verifier::ext_equal]
pub ghost struct Model {
    /// Content of the node's local register (as last known here).
    pub local: Seq<char>,
    /// The change detection's compare baseline: the last value this node
    /// has seen, whether read locally or applied from the peer.
    pub baseline: Seq<char>,
    /// Send slot: locally detected changes destined for the peer.
    pub to_remote: SlotModel,
    /// Receive slot: the peer's changes as they arrive.
    pub from_remote: SlotModel,
    /// Last receive-slot version the listen loop consumed.
    pub listen_seen: int,
    /// Last send-slot version the transport adapter sent.
    pub sent_seen: int,
    /// Poll interval of the change detection, in milliseconds.
    pub frequency: u64,
    /// The change-detection loop reached its terminal state.
    pub detect_stopped: bool,
    /// The remote-listen loop reached its terminal state.
    pub listen_stopped: bool,
    /// The one-shot cancellation signal was triggered.
    pub cancelled: bool,
    /// `shutdown` completed; the session is over.
    pub shut_down: bool,
    /// The first fatal condition recorded, if any.
    pub error: Option<SyncError>,
}

/// Session well-formedness: stopped loops and recorded errors imply the
/// cancellation signal fired, a finished shutdown implies both loops
/// stopped, and no observer is ahead of its slot.
pub open spec fn wf_model(m: Model) -> bool {
    &&& m.detect_stopped ==> m.cancelled
    &&& m.listen_stopped ==> m.cancelled
    &&& m.shut_down ==> m.detect_stopped && m.listen_stopped
    &&& m.error is Some ==> m.cancelled
    &&& 0 <= m.listen_seen <= m.from_remote.version
    &&& 0 <= m.sent_seen <= m.to_remote.version
    &&& m.from_remote.version <= u64::MAX as int
    &&& m.to_remote.version <= u64::MAX as int
}

/// The session state right after construction with initial value `v`.
pub open spec fn init_model(v: Seq<char>, frequency: u64) -> Model {
    Model {
        local: v,
        baseline: v,
        to_remote: SlotModel { value: v, version: 0 },
        from_remote: SlotModel { value: v, version: 0 },
        listen_seen: 0,
        sent_seen: 0,
        frequency: frequency,
        detect_stopped: false,
        listen_stopped: false,
        cancelled: false,
        shut_down: false,
        error: None,
    }
}

/// Recording a fatal condition keeps the first one.
pub open spec fn recorded_error(e0: Option<SyncError>, e: SyncError) -> Option<SyncError> {
    if e0 is Some {
        e0
    } else {
        Some(e)
    }
}

/// Effect of one change-detection tick, given what the provider read
/// returned (`None` means the provider failed). Cancellation stops the loop
/// before it acts; a provider failure is fatal for the session; a value is
/// pushed toward the peer exactly when it differs from the baseline, and the
/// baseline then tracks it.
pub open spec fn poll_spec(m: Model, read: Option<String>) -> Model {
    if m.cancelled {
        Model { detect_stopped: true, ..m }
    } else {
        match read {
            Option::None => Model {
                detect_stopped: true,
                cancelled: true,
                error: recorded_error(m.error, SyncError::Provider),
                ..m
            },
            Option::Some(v) => if v@ == m.baseline {
                Model { local: v@, ..m }
            } else {
                Model {
                    local: v@,
                    baseline: v@,
                    to_remote: publish_spec(m.to_remote, v@),
                    ..m
                }
            },
        }
    }
}

/// What one change-detection tick reports.
pub open spec fn poll_step_spec(m: Model, read: Option<String>) -> PollStep {
    if m.cancelled {
        PollStep::Stopped
    } else {
        match read {
            Option::None => PollStep::ProviderFailed,
            Option::Some(v) => if v@ == m.baseline {
                PollStep::Unchanged
            } else {
                PollStep::Pushed(publish_replaced(m.to_remote, v@))
            },
        }
    }
}

/// Effect of one remote-listen wakeup. Cancellation stops the loop before
/// it acts; otherwise, when the receive slot holds a version the loop has
/// not consumed, the loop consumes it, applies the value to the local
/// register, and advances the baseline to it — a value applied from the
/// peer is thereby never re-detected as a local change (echo suppression).
pub open spec fn listen_spec(m: Model) -> Model {
    if m.cancelled {
        Model { listen_stopped: true, ..m }
    } else if m.from_remote.version > m.listen_seen {
        Model {
            listen_seen: m.from_remote.version,
            local: m.from_remote.value,
            baseline: m.from_remote.value,
            ..m
        }
    } else {
        m
    }
}

/// What one remote-listen wakeup reports.
pub open spec fn listen_step_spec(m: Model) -> ListenStep {
    if m.cancelled {
        ListenStep::Stopped
    } else if m.from_remote.version > m.listen_seen {
        ListenStep::Applied(m.local != m.from_remote.value)
    } else {
        ListenStep::Waiting
    }
}

/// Effect of one inbound transport event: an arriving peer value is
/// compare-and-swapped into the receive slot, a shutdown request triggers
/// the cancellation signal.
pub open spec fn event_spec(m: Model, event: ClipboardEvent) -> Model {
    match event {
        ClipboardEvent::SetLocal(content) => Model {
            from_remote: publish_spec(m.from_remote, content@),
            ..m
        },
        ClipboardEvent::Shutdown => Model { cancelled: true, ..m },
    }
}

/// Whether an inbound transport event replaces the receive slot's value.
pub open spec fn event_replaced_spec(m: Model, event: ClipboardEvent) -> bool {
    match event {
        ClipboardEvent::SetLocal(content) => publish_replaced(m.from_remote, content@),
        ClipboardEvent::Shutdown => false,
    }
}

/// Effect of the transport adapter draining the send slot: it consumes the
/// latest unsent version, if there is one.
pub open spec fn outgoing_spec(m: Model) -> Model {
    if m.to_remote.version > m.sent_seen {
        Model { sent_seen: m.to_remote.version, ..m }
    } else {
        m
    }
}

/// Effect of a transport failure: fatal for the session.
pub open spec fn fail_spec(m: Model, e: SyncError) -> Model {
    Model { cancelled: true, error: recorded_error(m.error, e), ..m }
}

/// Effect of `shutdown`: the first call triggers cancellation and marks
/// everything terminal; any further call changes nothing.
pub open spec fn shutdown_spec(m: Model) -> Model {
    if m.shut_down {
        m
    } else {
        Model {
            cancelled: true,
            detect_stopped: true,
            listen_stopped: true,
            shut_down: true,
            ..m
        }
    }
}

/// What one change-detection tick did.
#[derive(Clone, Copy, PartialEq, Eq, Structural, Debug)]
pub enum PollStep {
    /// Cancellation was observed; the loop is in its terminal state.
    Stopped,
    /// The provider read failed; the session is cancelled.
    ProviderFailed,
    /// The value read equals the baseline; nothing was pushed.
    Unchanged,
    /// A genuine change was pushed toward the peer; the payload reports
    /// whether the send slot's value actually changed.
    Pushed(bool),
}

/// What one remote-listen wakeup did.
#[derive(Clone, Copy, PartialEq, Eq, Structural, Debug)]
pub enum ListenStep {
    /// Cancellation was observed; the loop is in its terminal state.
    Stopped,
    /// No unconsumed peer change; the caller should suspend again.
    Waiting,
    /// A peer value was applied to the local register; the payload reports
    /// whether the local register's content actually changed.
    Applied(bool),
}

/// An inbound event handed to the session by the transport.
pub enum ClipboardEvent {
    /// The peer pushed a value.
    SetLocal(String),
    /// The peer, or the process, asked the session to stop cleanly.
    Shutdown,
}

/// One node's whole session state.
pub struct Clipboard {
    local: LocalClipboard,
    remote: RemoteClipboard,
    baseline: String,
    listen_seen: u64,
    sent_seen: u64,
    frequency: u64,
    detect_stopped: bool,
    listen_stopped: bool,
    cancel: CancelFlag,
    shut_down: bool,
    error: Option<SyncError>,
}

impl View for Clipboard {
    type V = Model;

    closed spec fn view(&self) -> Model {
        Model {
            local: self.local@,
            baseline: self.baseline@,
            to_remote: self.remote@.to_remote,
            from_remote: self.remote@.from_remote,
            listen_seen: self.listen_seen as int,
            sent_seen: self.sent_seen as int,
            frequency: self.frequency,
            detect_stopped: self.detect_stopped,
            listen_stopped: self.listen_stopped,
            cancelled: self.cancel.is_cancelled_spec(),
            shut_down: self.shut_down,
            error: self.error,
        }
    }
}

impl Clipboard {
    /// Session well-formedness; established by `new`, preserved by every
    /// step.
    pub open spec fn wf(&self) -> bool {
        wf_model(self@)
    }

    /// A fresh session over initial value `initial`, polling the provider
    /// every `frequency` milliseconds.
    ///
    /// The register's value is never absent: a session starts from the one
    /// value read from the provider at bootstrap, with the empty string
    /// standing for an empty register.
    pub fn new(initial: String, frequency: u64) -> (c: Clipboard)
        ensures
            c.wf(),
            c@ == init_model(initial@, frequency),
    {
        let local = LocalClipboard::new(initial.clone());
        let remote = RemoteClipboard::new(initial.clone());
        let c = Clipboard {
            local,
            remote,
            baseline: initial,
            listen_seen: 0,
            sent_seen: 0,
            frequency,
            detect_stopped: false,
            listen_stopped: false,
            cancel: CancelFlag::new(),
            shut_down: false,
            error: None,
        };
        proof {
            assert(c@ =~= init_model(initial@, frequency));
        }
        c
    }

    /// One change-detection tick. The caller read the provider just before
    /// and passes the result: `Some(value)`, or `None` when the provider
    /// failed.
    pub fn poll_local(&mut self, read: Option<String>) -> (step: PollStep)
        requires
            old(self).wf(),
            old(self)@.to_remote.version < u64::MAX as int,
        ensures
            final(self).wf(),
            final(self)@ == poll_spec(old(self)@, read),
            step == poll_step_spec(old(self)@, read),
    {
        if self.cancel.is_cancelled() {
            self.detect_stopped = true;
            proof {
                assert(self@ =~= poll_spec(old(self)@, read));
            }
            PollStep::Stopped
        } else {
            match read {
                Option::None => {
                    if self.error.is_none() {
                        self.error = Some(SyncError::Provider);
                    }
                    self.cancel.trigger();
                    self.detect_stopped = true;
                    proof {
                        assert(self@ =~= poll_spec(old(self)@, read));
                    }
                    PollStep::ProviderFailed
                },
                Option::Some(v) => {
                    let ghost pre = self@;
                    let ghost v_view = v@;
                    let _synced = self.local.set(v.clone());
                    if v == self.baseline {
                        proof {
                            assert(self@ =~= poll_spec(pre, Some(v)));
                        }
                        PollStep::Unchanged
                    } else {
                        let replaced = self.remote.set(v.clone());
                        self.baseline = v;
                        proof {
                            assert(self@ =~= Model {
                                local: v_view,
                                baseline: v_view,
                                to_remote: publish_spec(pre.to_remote, v_view),
                                ..pre
                            });
                        }
                        PollStep::Pushed(replaced)
                    }
                },
            }
        }
    }

    /// One remote-listen wakeup: consume the next unconsumed peer value, if
    /// any, and apply it to the local register. The suspension until one
    /// exists happens outside the library.
    pub fn listen_remote(&mut self) -> (step: ListenStep)
        requires
            old(self).wf(),
        ensures
            final(self).wf(),
            final(self)@ == listen_spec(old(self)@),
            step == listen_step_spec(old(self)@),
    {
        if self.cancel.is_cancelled() {
            self.listen_stopped = true;
            proof {
                assert(self@ =~= listen_spec(old(self)@));
            }
            ListenStep::Stopped
        } else {
            match self.remote.get_new(self.listen_seen) {
                Option::Some(p) => {
                    let (content, version) = p;
                    self.listen_seen = version;
                    let replaced = self.local.set(content.clone());
                    self.baseline = content;
                    proof {
                        assert(self@ =~= listen_spec(old(self)@));
                    }
                    ListenStep::Applied(replaced)
                },
                Option::None => ListenStep::Waiting,
            }
        }
    }

    /// One inbound transport event: a peer value arriving, or a clean
    /// shutdown request. Reports whether a peer value actually changed the
    /// receive slot.
    pub fn handle_event(&mut self, event: ClipboardEvent) -> (replaced: bool)
        requires
            old(self).wf(),
            old(self)@.from_remote.version < u64::MAX as int,
        ensures
            final(self).wf(),
            final(self)@ == event_spec(old(self)@, event),
            replaced == event_replaced_spec(old(self)@, event),
    {
        match event {
            ClipboardEvent::SetLocal(content) => {
                let ghost c_view = content@;
                let replaced = self.remote.apply_from_peer(content);
                proof {
                    assert(self@ =~= Model {
                        from_remote: publish_spec(old(self)@.from_remote, c_view),
                        ..old(self)@
                    });
                }
                replaced
            },
            ClipboardEvent::Shutdown => {
                self.cancel.trigger();
                proof {
                    assert(self@ =~= Model { cancelled: true, ..old(self)@ });
                }
                false
            },
        }
    }

    /// The transport adapter's outbound drain: the latest locally detected
    /// value not yet sent to the peer, if any.
    pub fn next_outgoing(&mut self) -> (r: Option<String>)
        requires
            old(self).wf(),
        ensures
            final(self).wf(),
            final(self)@ == outgoing_spec(old(self)@),
            match r {
                Some(content) => old(self)@.to_remote.version > old(self)@.sent_seen && content@
                    == old(self)@.to_remote.value,
                None => old(self)@.to_remote.version <= old(self)@.sent_seen,
            },
    {
        match self.remote.take_outgoing(self.sent_seen) {
            Option::Some(p) => {
                self.sent_seen = p.1;
                proof {
                    assert(self@ =~= outgoing_spec(old(self)@));
                }
                Some(p.0)
            },
            Option::None => None,
        }
    }

    /// A provider failure observed outside a poll — a failed provider
    /// write while applying a peer value: fatal for the session, like a
    /// failed poll read.
    pub fn provider_error(&mut self)
        requires
            old(self).wf(),
        ensures
            final(self).wf(),
            final(self)@ == fail_spec(old(self)@, SyncError::Provider),
    {
        if self.error.is_none() {
            self.error = Some(SyncError::Provider);
        }
        self.cancel.trigger();
        proof {
            assert(self@ =~= fail_spec(old(self)@, SyncError::Provider));
        }
    }

    /// A transport failure, on either direction: fatal for the session.
    /// Both loops observe the cancellation at their next step.
    pub fn transport_error(&mut self)
        requires
            old(self).wf(),
        ensures
            final(self).wf(),
            final(self)@ == fail_spec(old(self)@, SyncError::Transport),
    {
        if self.error.is_none() {
            self.error = Some(SyncError::Transport);
        }
        self.cancel.trigger();
        proof {
            assert(self@ =~= fail_spec(old(self)@, SyncError::Transport));
        }
    }

    /// End the session: trigger the cancellation signal and mark the session
    /// terminal, returning the first fatal condition recorded, if any.
    /// Calling it again changes nothing and returns the same result. The
    /// caller must not treat the session as shut down until every activity
    /// it spawned has observed the cancellation and terminated.
    pub fn shutdown(&mut self) -> (r: Option<SyncError>)
        requires
            old(self).wf(),
        ensures
            final(self).wf(),
            final(self)@ == shutdown_spec(old(self)@),
            final(self)@.shut_down,
            r == old(self)@.error,
            old(self)@.shut_down ==> final(self)@ == old(self)@,
    {
        if !self.shut_down {
            self.cancel.trigger();
            self.detect_stopped = true;
            self.listen_stopped = true;
            self.shut_down = true;
            proof {
                assert(self@ =~= shutdown_spec(old(self)@));
            }
        }
        self.error
    }

    /// Non-blocking snapshot of the receive slot, for bootstrap and
    /// diagnostics.
    pub fn current_remote(&self) -> (r: String)
        ensures
            r@ == self@.from_remote.value,
    {
        self.remote.current()
    }

    /// Snapshot of the local register's content as last known here.
    pub fn current_local(&self) -> (r: String)
        ensures
            r@ == self@.local,
    {
        self.local.get()
    }

    /// The poll interval of the change detection, in milliseconds.
    pub fn frequency(&self) -> (r: u64)
        ensures
            r == self@.frequency,
    {
        self.frequency
    }

    /// Whether both slot version counters are still below their machine
    /// limit, that is, whether the preconditions of `poll_local` and
    /// `handle_event` hold.
    pub fn has_version_headroom(&self) -> (r: bool)
        ensures
            r == (self@.to_remote.version < u64::MAX as int && self@.from_remote.version
                < u64::MAX as int),
    {
        self.remote.has_version_headroom()
    }

    /// Whether the session's cancellation signal has been triggered.
    pub fn is_cancelled(&self) -> (r: bool)
        ensures
            r == self@.cancelled,
    {
        self.cancel.is_cancelled()
    }
}

/// No self-echo: a node that detects and pushes a value `v`, then receives
/// `v` back from the peer, applies it with `replaced == false`, and its next
/// poll that still reads `v` detects no change and pushes nothing.
pub proof fn lemma_no_self_echo(m: Model, v: String)
    requires
        wf_model(m),
        !m.cancelled,
    ensures
        ({
            let after_poll = poll_spec(m, Some(v));
            let after_echo = event_spec(after_poll, ClipboardEvent::SetLocal(v));
            listen_step_spec(after_echo) matches ListenStep::Applied(replaced) ==> !replaced
        }),
        ({
            let after_poll = poll_spec(m, Some(v));
            let after_echo = event_spec(after_poll, ClipboardEvent::SetLocal(v));
            let after_apply = listen_spec(after_echo);
            &&& poll_step_spec(after_apply, Some(v)) == PollStep::Unchanged
            &&& poll_spec(after_apply, Some(v)).to_remote == after_apply.to_remote
        }),
{
}

/// One full propagation converges: when node A detects a genuine change to
/// `v`, the transport carries exactly `v` to node B; once B applies it,
/// both nodes hold `v`, and B's own change detection, reading the applied
/// value, detects no further change and pushes nothing back.
pub proof fn lemma_one_change_propagates(a0: Model, b0: Model, v: String)
    requires
        wf_model(a0),
        wf_model(b0),
        !a0.cancelled,
        !b0.cancelled,
        v@ != a0.baseline,
        v@ != b0.from_remote.value,
    ensures
        ({
            let a1 = poll_spec(a0, Some(v));
            let b1 = event_spec(b0, ClipboardEvent::SetLocal(v));
            let b2 = listen_spec(b1);
            &&& a1.to_remote.value == v@
            &&& a1.local == v@
            &&& b2.local == v@
            &&& poll_step_spec(b2, Some(v)) == PollStep::Unchanged
            &&& poll_spec(b2, Some(v)).to_remote == b2.to_remote
        }),
{
}

/// Cancellation responsiveness, at the step level: once the signal is
/// triggered, the very next step of either loop reaches its terminal state
/// and performs no further action on the register or the slots.
pub proof fn lemma_cancelled_stops(m: Model, read: Option<String>)
    requires
        m.cancelled,
    ensures
        poll_spec(m, read) == (Model { detect_stopped: true, ..m }),
        poll_step_spec(m, read) == PollStep::Stopped,
        listen_spec(m) == (Model { listen_stopped: true, ..m }),
        listen_step_spec(m) == ListenStep::Stopped,
{
    assert(poll_spec(m, read) =~= Model { detect_stopped: true, ..m });
    assert(listen_spec(m) =~= Model { listen_stopped: true, ..m });
}

/// Cancellation is monotonic: the signal transitions once, and no step of
/// the session ever reverts it.
pub proof fn lemma_cancellation_monotonic(m: Model, read: Option<String>, event: ClipboardEvent)
    requires
        m.cancelled,
    ensures
        poll_spec(m, read).cancelled,
        listen_spec(m).cancelled,
        event_spec(m, event).cancelled,
        outgoing_spec(m).cancelled,
        fail_spec(m, SyncError::Provider).cancelled,
        fail_spec(m, SyncError::Transport).cancelled,
        shutdown_spec(m).cancelled,
{
}

/// Idempotent shutdown: shutting down an already shut-down session changes
/// nothing, and shutdown never alters which terminal error is reported.
pub proof fn lemma_shutdown_idempotent(m: Model)
    ensures
        shutdown_spec(shutdown_spec(m)) == shutdown_spec(m),
        shutdown_spec(m).error == m.error,
{
}

} // verus!
