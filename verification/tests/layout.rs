use winx_application::events::DomainEvent;
use winx_application::ids::{DeviceId, MonitorId, PeerId};
use winx_application::layout::{
    border_str, layout_from_payload, layout_to_payload, monitor_layout_from_wire, monitor_layout_to_wire,
    parse_border, rects_from_wire, rects_to_wire, BorderSide, EdgeConfig, MonitorLayout, MonitorRect,
    WorkspaceLayout, WorkspaceLayoutPayload,
};
use winx_application::workspace_service::{pick_runtime_layout, InputLayoutChoice, RuntimeLayout};
use winx_application::layout_sync::{announce_payloads, on_layout_share, on_monitors_announce, payload_kind, PayloadTag};

fn rect(id: u32, x: i32) -> MonitorRect {
    MonitorRect { id: MonitorId(id), x, y: 0, width: 1920, height: 1080 }
}

fn side_by_side(peer: PeerId) -> MonitorLayout {
    MonitorLayout {
        local_monitors: vec![rect(10, 0)],
        remote_peer: peer,
        remote_virtual: rect(0, 1920),
        remote_monitors: vec![],
        edge: EdgeConfig { local_exit: BorderSide::Right, remote_entry: BorderSide::Left, exit_local_monitor_id: None },
    }
}

#[test]
fn peer_monitors_announce_persists_publishes_and_updates_active_layout() {
    let peer = PeerId(5);
    let monitors = vec![rect(1, 0), rect(2, 1920)];
    let mut active = Some(side_by_side(peer));
    let effect = on_monitors_announce(&mut active, true, Some(peer), peer, &rects_to_wire(&monitors));
    assert_eq!(effect.store.as_ref().unwrap(), &monitors);
    match effect.event {
        Some(DomainEvent::PeerMonitorsUpdated { peer_id, monitor_count }) => {
            assert_eq!(peer_id, peer);
            assert_eq!(monitor_count, 2);
        },
        _ => panic!("unexpected event"),
    }
    assert!(effect.recompute_edges);
    assert_eq!(active.as_ref().unwrap().remote_monitors, monitors);
    let again = on_monitors_announce(&mut active, true, Some(peer), peer, &rects_to_wire(&monitors[..1].to_vec()));
    assert!(!again.recompute_edges);
    assert_eq!(active.as_ref().unwrap().remote_monitors.len(), 1);
}

#[test]
fn announce_for_other_peer_only_persists() {
    let peer = PeerId(5);
    let mut active = Some(side_by_side(peer));
    let effect = on_monitors_announce(&mut active, true, Some(PeerId(6)), peer, &rects_to_wire(&vec![rect(1, 0)]));
    assert!(effect.store.is_some());
    assert!(!effect.recompute_edges);
    assert!(active.unwrap().remote_monitors.is_empty());
    let empty = on_monitors_announce(&mut None, true, Some(peer), peer, &vec![]);
    assert!(empty.store.is_none() && empty.event.is_none());
}

#[test]
fn shared_layout_gives_the_peer_monitors() {
    let peer = PeerId(5);
    let mut theirs = side_by_side(PeerId(1));
    theirs.local_monitors = vec![rect(3, 0), rect(4, -1920)];
    let mut active = Some(side_by_side(peer));
    let effect = on_layout_share(&mut active, true, Some(peer), peer, &monitor_layout_to_wire(&theirs));
    assert!(effect.recompute_edges);
    assert_eq!(active.unwrap().remote_monitors, theirs.local_monitors);
}

#[test]
fn payload_names() {
    assert_eq!(payload_kind(PayloadTag::Heartbeat), "Heartbeat");
    assert_eq!(payload_kind(PayloadTag::KvmLayoutShare), "KvmLayoutShare");
    assert_eq!(payload_kind(PayloadTag::SessionCursorSync), "Unknown");
}

#[test]
fn wire_round_trips() {
    let rects = vec![rect(1, -5), rect(2, 7)];
    assert_eq!(rects_from_wire(&rects_to_wire(&rects)), rects);
    for side in [BorderSide::Right, BorderSide::Left, BorderSide::Top, BorderSide::Bottom] {
        assert_eq!(parse_border(&border_str(side)), side);
    }
    assert_eq!(parse_border("Diagonal"), BorderSide::Right);
    let mut l = side_by_side(PeerId(9));
    l.edge = EdgeConfig { local_exit: BorderSide::Top, remote_entry: BorderSide::Bottom, exit_local_monitor_id: Some(MonitorId(10)) };
    let back = monitor_layout_from_wire(&monitor_layout_to_wire(&l));
    assert_eq!(back.edge, l.edge);
    assert_eq!(back.local_monitors, l.local_monitors);
    assert_eq!(back.remote_peer, l.remote_peer);
}

#[test]
fn workspace_layout_travels_with_uuid_keys() {
    let mut wl = WorkspaceLayout::empty();
    let d = DeviceId(0x0123_4567_89ab_cdef_0123_4567_89ab_cdef);
    wl.set(d, side_by_side(PeerId(3)));
    let p = layout_to_payload(&wl);
    assert_eq!(p.per_device[0].0, "01234567-89ab-cdef-0123-456789abcdef");
    let back = layout_from_payload(&p);
    assert_eq!(back.per_device.len(), 1);
    assert_eq!(back.per_device[0].0, d);
    assert_eq!(back.per_device[0].1.remote_peer, PeerId(3));
}

#[test]
fn unparsable_keys_are_skipped_and_later_entries_win() {
    let l1 = monitor_layout_to_wire(&side_by_side(PeerId(1)));
    let l2 = monitor_layout_to_wire(&side_by_side(PeerId(2)));
    let p = WorkspaceLayoutPayload {
        per_device: vec![
            ("not-a-uuid".to_string(), l1.clone()),
            ("00000000-0000-0000-0000-000000000007".to_string(), l1),
            ("00000000-0000-0000-0000-000000000007".to_string(), l2),
        ],
    };
    let back = layout_from_payload(&p);
    assert_eq!(back.per_device.len(), 1);
    assert_eq!(back.per_device[0].0, DeviceId(7));
    assert_eq!(back.per_device[0].1.remote_peer, PeerId(2));
}

#[test]
fn announce_sends_saved_layout_when_present() {
    let monitors = vec![rect(1, 0)];
    let (wire, none) = announce_payloads(&monitors, None);
    assert_eq!(rects_from_wire(&wire), monitors);
    assert!(none.is_none());
    let saved = side_by_side(PeerId(4));
    let (_, some) = announce_payloads(&monitors, Some(&saved));
    assert_eq!(monitor_layout_from_wire(&some.unwrap()).remote_peer, PeerId(4));
}

#[test]
fn runtime_layout_prefers_workspace_then_stored_then_default() {
    let ws_layout = side_by_side(PeerId(1));
    let mut stored = side_by_side(PeerId(1));
    stored.local_monitors = vec![rect(11, 0), rect(12, 1920)];
    match pick_runtime_layout(Some(InputLayoutChoice::Saved(ws_layout)), Some(stored.clone())) {
        RuntimeLayout::Use(l) => assert_eq!(l.local_monitors.len(), 1),
        RuntimeLayout::DefaultSideBySide => panic!("the workspace layout comes first"),
    }
    assert!(matches!(
        pick_runtime_layout(Some(InputLayoutChoice::DefaultSideBySide), Some(stored.clone())),
        RuntimeLayout::DefaultSideBySide
    ));
    match pick_runtime_layout(Some(InputLayoutChoice::NotMember), Some(stored.clone())) {
        RuntimeLayout::Use(l) => assert_eq!(l.local_monitors.len(), 2),
        RuntimeLayout::DefaultSideBySide => panic!("the stored layout comes next"),
    }
    assert!(matches!(pick_runtime_layout(None, None), RuntimeLayout::DefaultSideBySide));
}
