use synclip::local_clipboard::LocalClipboard;
use synclip::remote_clipboard::RemoteClipboard;
use synclip::slot::CoalescingSlot;

#[test]
fn local_set_is_idempotent() {
    let mut local = LocalClipboard::new(String::from("a"));
    assert_eq!(local.set(String::from("b")), true);
    assert_eq!(local.set(String::from("b")), false);
    assert_eq!(local.get(), "b");
}

#[test]
fn local_set_of_current_value_replaces_nothing() {
    let mut local = LocalClipboard::new(String::from("same"));
    assert_eq!(local.set(String::from("same")), false);
    assert_eq!(local.get(), "same");
}

#[test]
fn slot_coalesces_to_latest() {
    let mut slot = CoalescingSlot::new(String::from("v0"));
    assert!(slot.publish(String::from("v1")));
    assert!(slot.publish(String::from("v2")));
    assert!(slot.publish(String::from("v3")));
    let (value, version) = slot.observe(0).expect("three replacements are pending");
    assert_eq!(value, "v3");
    assert_eq!(version, 3);
    assert!(slot.observe(version).is_none());
}

#[test]
fn slot_publish_of_equal_value_is_silent() {
    let mut slot = CoalescingSlot::new(String::from("v"));
    assert_eq!(slot.publish(String::from("v")), false);
    assert!(slot.observe(0).is_none());
    assert_eq!(slot.current(), "v");
}

#[test]
fn remote_send_and_receive_sides_are_independent() {
    let mut remote = RemoteClipboard::new(String::from("init"));
    assert_eq!(remote.current(), "init");

    assert!(remote.set(String::from("outgoing")));
    assert!(remote.take_outgoing(0).is_some());
    assert!(remote.get_new(0).is_none());

    assert!(remote.apply_from_peer(String::from("incoming")));
    let (value, version) = remote.get_new(0).expect("a peer value arrived");
    assert_eq!(value, "incoming");
    assert!(remote.get_new(version).is_none());
    assert_eq!(remote.current(), "incoming");
}

#[test]
fn remote_apply_of_equal_value_replaces_nothing() {
    let mut remote = RemoteClipboard::new(String::from("init"));
    assert_eq!(remote.apply_from_peer(String::from("init")), false);
    assert!(remote.get_new(0).is_none());
}
