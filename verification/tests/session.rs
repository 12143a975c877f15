use synclip::clipboard::{Clipboard, ClipboardEvent, ListenStep, PollStep};
use synclip::errors::SyncError;

#[test]
fn change_is_pushed_once_and_baseline_tracks_it() {
    let mut node = Clipboard::new(String::from("a"), 500);
    assert_eq!(node.poll_local(Some(String::from("b"))), PollStep::Pushed(true));
    assert_eq!(node.poll_local(Some(String::from("b"))), PollStep::Unchanged);
    assert_eq!(node.next_outgoing(), Some(String::from("b")));
    assert_eq!(node.next_outgoing(), None);
}

#[test]
fn latest_wins_when_peer_drains_slowly() {
    let mut node = Clipboard::new(String::from("v0"), 500);
    assert_eq!(node.poll_local(Some(String::from("v1"))), PollStep::Pushed(true));
    assert_eq!(node.poll_local(Some(String::from("v2"))), PollStep::Pushed(true));
    assert_eq!(node.poll_local(Some(String::from("v3"))), PollStep::Pushed(true));
    assert_eq!(node.next_outgoing(), Some(String::from("v3")));
    assert_eq!(node.next_outgoing(), None);
}

#[test]
fn two_nodes_propagate_without_echo() {
    let mut a = Clipboard::new(String::from("a"), 500);
    let mut b = Clipboard::new(String::from("a"), 500);

    // Node A's register changes to "b"; A detects and pushes it.
    assert_eq!(a.poll_local(Some(String::from("b"))), PollStep::Pushed(true));
    let outgoing = a.next_outgoing().expect("A has an unsent change");
    assert_eq!(outgoing, "b");

    // The transport carries it to B; B applies it locally.
    assert_eq!(b.handle_event(ClipboardEvent::SetLocal(outgoing)), true);
    assert_eq!(b.listen_remote(), ListenStep::Applied(true));
    assert_eq!(b.current_local(), "b");

    // B's own change detection reads the applied value and, detecting no
    // further local change, pushes nothing back toward A.
    assert_eq!(b.poll_local(Some(String::from("b"))), PollStep::Unchanged);
    assert_eq!(b.next_outgoing(), None);
}

#[test]
fn echoed_value_is_applied_without_replacing_and_not_repushed() {
    let mut a = Clipboard::new(String::from("a"), 500);
    assert_eq!(a.poll_local(Some(String::from("b"))), PollStep::Pushed(true));
    assert_eq!(a.next_outgoing(), Some(String::from("b")));

    // The peer echoes the same value back to A.
    assert_eq!(a.handle_event(ClipboardEvent::SetLocal(String::from("b"))), true);
    assert_eq!(a.listen_remote(), ListenStep::Applied(false));

    // No re-push: repeated polls keep reporting no change.
    for _ in 0..10 {
        assert_eq!(a.poll_local(Some(String::from("b"))), PollStep::Unchanged);
        assert_eq!(a.next_outgoing(), None);
    }
}

#[test]
fn cancellation_stops_both_loops_at_their_next_step() {
    let mut node = Clipboard::new(String::from("a"), 500);
    assert_eq!(node.handle_event(ClipboardEvent::Shutdown), false);
    assert!(node.is_cancelled());
    assert_eq!(node.poll_local(Some(String::from("b"))), PollStep::Stopped);
    assert_eq!(node.listen_remote(), ListenStep::Stopped);
    assert_eq!(node.shutdown(), None);
}

#[test]
fn shutdown_is_idempotent() {
    let mut node = Clipboard::new(String::from("a"), 500);
    assert_eq!(node.shutdown(), None);
    assert!(node.is_cancelled());
    assert_eq!(node.shutdown(), None);
    assert!(node.is_cancelled());
}

#[test]
fn provider_failure_cancels_session_and_surfaces_in_shutdown() {
    let mut node = Clipboard::new(String::from("a"), 500);
    assert_eq!(node.poll_local(None), PollStep::ProviderFailed);
    assert!(node.is_cancelled());
    assert_eq!(node.listen_remote(), ListenStep::Stopped);
    assert_eq!(node.shutdown(), Some(SyncError::Provider));
    assert_eq!(node.shutdown(), Some(SyncError::Provider));
}

#[test]
fn transport_failure_cancels_session_and_surfaces_in_shutdown() {
    let mut node = Clipboard::new(String::from("a"), 500);
    node.transport_error();
    assert!(node.is_cancelled());
    assert_eq!(node.poll_local(Some(String::from("b"))), PollStep::Stopped);
    assert_eq!(node.shutdown(), Some(SyncError::Transport));
}

#[test]
fn first_recorded_error_wins() {
    let mut node = Clipboard::new(String::from("a"), 500);
    assert_eq!(node.poll_local(None), PollStep::ProviderFailed);
    node.transport_error();
    assert_eq!(node.shutdown(), Some(SyncError::Provider));
}

#[test]
fn bootstrap_snapshots_hold_the_initial_value() {
    let node = Clipboard::new(String::from("init"), 250);
    assert_eq!(node.current_local(), "init");
    assert_eq!(node.current_remote(), "init");
    assert_eq!(node.frequency(), 250);
    assert!(!node.is_cancelled());
}

#[test]
fn listen_waits_when_no_peer_change_is_pending() {
    let mut node = Clipboard::new(String::from("a"), 500);
    assert_eq!(node.listen_remote(), ListenStep::Waiting);
    assert_eq!(node.handle_event(ClipboardEvent::SetLocal(String::from("a"))), false);
    assert_eq!(node.listen_remote(), ListenStep::Waiting);
}
