use winx_application::clipboard_sync::{ClipboardSync, MAX_CLIPBOARD_TEXT_BYTES};
use winx_application::error::DomainErrorCode;
use winx_application::events::DomainEvent;
use winx_application::ids::PeerId;

fn ready(local_peer_active: PeerId) -> ClipboardSync {
    let mut s = ClipboardSync::new(true);
    s.enable_for_peer(local_peer_active, true).unwrap();
    s.channel_opened();
    s
}

#[test]
fn does_not_retransmit_same_hash_after_remote_apply() {
    let local = PeerId(1);
    let remote = PeerId(2);
    let text = "hello peer";
    let hash = [0x5a; 32];
    let mut s = ready(remote);
    assert_eq!(s.begin_remote_apply(remote, local, &hash, text.len()).unwrap(), true);
    assert!(s.suppress_local);
    let ev = s.remote_applied(remote, hash);
    assert!(matches!(ev, DomainEvent::ClipboardReceived { from_peer, .. } if from_peer == remote));
    assert!(!s.should_send_local(&hash, text.len()));
    assert_eq!(s.last_applied, Some(hash));
}

#[test]
fn local_change_is_sent_once() {
    let mut s = ready(PeerId(2));
    let h = [1u8; 32];
    assert!(s.should_send_local(&h, 3));
    let ev = s.local_sent(h, 3);
    assert!(matches!(ev, DomainEvent::ClipboardChanged { byte_len: 3, .. }));
    assert!(!s.should_send_local(&h, 3));
    assert!(s.should_send_local(&[2u8; 32], 3));
}

#[test]
fn local_change_needs_sync_peer_and_size() {
    let s = ClipboardSync::new(true);
    assert!(!s.should_send_local(&[1; 32], 1));
    let mut s = ready(PeerId(2));
    assert!(!s.should_send_local(&[1; 32], MAX_CLIPBOARD_TEXT_BYTES + 1));
    s.auto_sync = false;
    assert!(!s.should_send_local(&[1; 32], 1));
}

#[test]
fn remote_text_checks() {
    let local = PeerId(1);
    let mut s = ready(PeerId(2));
    assert_eq!(s.begin_remote_apply(local, local, &[1; 32], 1).unwrap(), false);
    let err = s.begin_remote_apply(PeerId(2), local, &[1; 32], MAX_CLIPBOARD_TEXT_BYTES + 1).unwrap_err();
    assert_eq!(err.code, DomainErrorCode::ClipboardPayloadTooLarge);
    assert!(!s.suppress_local);
}

#[test]
fn connection_loss_stops_sync() {
    let mut s = ready(PeerId(2));
    s.on_connection_lost(PeerId(3));
    assert_eq!(s.active_peer, Some(PeerId(2)));
    s.on_connection_lost(PeerId(2));
    assert_eq!(s.active_peer, None);
    assert!(!s.has_channel);
    let mut s = ClipboardSync::new(true);
    assert_eq!(s.enable_for_peer(PeerId(2), false).unwrap_err().code, DomainErrorCode::TransportConnectionFailed);
}
