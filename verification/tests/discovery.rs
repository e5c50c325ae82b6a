use winx_application::discovery_core::{
    announce_info, begin_start, paired_flags, reannounce_info, start_failed, DiscoveredPeer, DiscoveryEvent, DiscoveryRegistry,
    WINX_KVM_PORT,
};
use winx_application::events::DomainEvent;
use winx_application::ids::PeerId;

fn sample_peer(id: PeerId, name: &str) -> DiscoveredPeer<u16> {
    DiscoveredPeer { id, username: name.to_string(), fingerprint: "AA:BB:CC:DD:EE:FF:00:11".to_string(), addresses: vec![7878] }
}

#[test]
fn enriched_marks_trusted_peer() {
    let peer_a = PeerId(0xa);
    let peer_b = PeerId(0xb);
    let mut registry = DiscoveryRegistry::new();
    registry.appeared(sample_peer(peer_a, "A"));
    registry.appeared(sample_peer(peer_b, "B"));
    let trusted = vec![peer_a];
    let flags = paired_flags(registry.peers(), &trusted);
    let peers = registry.peers();
    let a = peers.iter().position(|p| p.id == peer_a).unwrap();
    let b = peers.iter().position(|p| p.id == peer_b).unwrap();
    assert!(flags[a]);
    assert!(!flags[b]);
}

#[test]
fn own_announcement_is_ignored() {
    let me = PeerId(1);
    let mut r: DiscoveryRegistry<u16> = DiscoveryRegistry::new();
    let ev = r.apply_event(
        Some(me),
        DiscoveryEvent::Found { peer_id: me, username: "Me".into(), fingerprint: "F".into(), addresses: vec![1] },
    );
    assert!(ev.is_none());
    assert_eq!(r.peers().len(), 0);
}

#[test]
fn found_updated_lost() {
    let p = PeerId(2);
    let mut r: DiscoveryRegistry<u16> = DiscoveryRegistry::new();
    let ev = r.apply_event(None, DiscoveryEvent::Found { peer_id: p, username: "Bob".into(), fingerprint: "FP".into(), addresses: vec![1, 2] });
    assert!(matches!(ev, Some(DomainEvent::PeerAppeared { .. })));
    assert_eq!(r.first_address(p), Some(1));
    let ev = r.apply_event(None, DiscoveryEvent::Updated { peer_id: p, username: "Robert".into(), addresses: vec![9] });
    assert!(matches!(ev, Some(DomainEvent::PeerUpdated { .. })));
    let got = r.get(p).unwrap();
    assert_eq!(got.username, "Robert");
    assert_eq!(got.fingerprint, "FP");
    assert_eq!(r.first_address(p), Some(9));
    let ev = r.apply_event(None, DiscoveryEvent::Updated { peer_id: PeerId(7), username: "X".into(), addresses: vec![] });
    assert!(matches!(ev, Some(DomainEvent::PeerUpdated { .. })));
    assert!(r.get(PeerId(7)).is_none());
    let ev = r.apply_event(None, DiscoveryEvent::Lost { peer_id: p });
    assert!(matches!(ev, Some(DomainEvent::PeerDisappeared { .. })));
    assert!(r.get(p).is_none());
    assert_eq!(r.first_address(p), None);
}

#[test]
fn seen_again_replaces_the_entry() {
    let p = PeerId(2);
    let mut r = DiscoveryRegistry::new();
    r.appeared(sample_peer(p, "A"));
    r.appeared(sample_peer(p, "B"));
    assert_eq!(r.peers().len(), 1);
    assert_eq!(r.get(p).unwrap().username, "B");
}

#[test]
fn announce_carries_hex_key() {
    let mut key = [0u8; 32];
    key[0] = 0xab;
    key[31] = 0x0f;
    let info = announce_info(PeerId(1), "Me".into(), "FP".into(), &key);
    assert_eq!(info.pubkey_hex.len(), 64);
    assert!(info.pubkey_hex.starts_with("ab00"));
    assert!(info.pubkey_hex.ends_with("000f"));
    assert_eq!(info.port, WINX_KVM_PORT);
    let re = reannounce_info(PeerId(1));
    assert!(re.username.is_empty());
    assert_eq!(re.port, 7878);
}

#[test]
fn discovery_starts_once() {
    let mut running = false;
    assert!(begin_start(&mut running));
    assert!(!begin_start(&mut running));
}

#[test]
fn failed_start_can_be_retried() {
    let mut running = false;
    assert!(begin_start(&mut running));
    start_failed(&mut running);
    assert!(!running);
    assert!(begin_start(&mut running));
}
