use winx_application::error::DomainErrorCode;
use winx_application::events::DomainEvent;
use winx_application::ids::{DeviceId, InviteId, WorkspaceId};
use winx_application::workspace::{OwnershipMode, Workspace, WorkspaceMember, WorkspaceSnapshot};
use winx_application::workspace_service::{
    apply_remote_cursor, apply_remote_delete, apply_remote_sync, build_snapshot_payload, cursor_broadcast_due, ensure_deletable,
    broadcast_targets, ensure_forgettable, expired_invite_ids, mirror_from_invite, outgoing_invite, update_workspace, PendingInvite,
    PendingInvites, WorkspaceConnection, WorkspacePatch,
};
use winx_application::workspace_wire::{GlobalCursorPayload, MemberSnapshotPayload, WorkspaceSnapshotPayload, WorkspaceSyncPayload};

fn member(id: u128, key: u8, name: &str) -> WorkspaceMember {
    WorkspaceMember { device_id: DeviceId(id), public_key: [key; 32], username_cache: name.to_string(), joined_at_unix: 0 }
}

fn original(name: &str) -> Workspace {
    Workspace::create_original(WorkspaceId(1), name.to_string(), member(10, 0x10, "Owner")).unwrap()
}

fn mirror(name: &str) -> Workspace {
    let snapshot = WorkspaceSnapshot {
        id: WorkspaceId(2),
        name: name.to_string(),
        owner_device_id: DeviceId(20),
        version: 1,
        members: vec![member(20, 0x20, "Other"), member(10, 0x10, "Me")],
    };
    Workspace::create_mirror(snapshot, "Other".to_string(), 1_700_000_000)
}

#[test]
fn create_workspace_persists_original_with_owner_pubkey() {
    let ws = original("My WS");
    assert_eq!(ws.name, "My WS");
    assert_eq!(ws.version, 1);
    assert!(matches!(ws.ownership_mode, OwnershipMode::Original));
    assert_eq!(ws.members.len(), 1);
    assert_eq!(ws.members[0].public_key, [0x10; 32]);
    assert!(Workspace::create_original(WorkspaceId(1), String::new(), member(10, 1, "O")).is_err());
}

#[test]
fn update_workspace_rename_increments_version_and_persists() {
    let mut ws = original("Old Name");
    let ev = update_workspace(&mut ws, WorkspacePatch::Rename { new_name: "New Name".to_string() }, 0).unwrap();
    assert_eq!(ws.name, "New Name");
    assert_eq!(ws.version, 2);
    assert!(matches!(ev, DomainEvent::WorkspaceSyncApplied { new_version: 2, from_remote: false, .. }));
}

#[test]
fn update_mirror_returns_mirror_immutable_error() {
    let mut ws = mirror("Mirror");
    let err = update_workspace(&mut ws, WorkspacePatch::Rename { new_name: "X".to_string() }, 0).unwrap_err();
    assert_eq!(err.code, DomainErrorCode::WorkspaceMirrorImmutable);
    assert_eq!(ws.name, "Mirror");
}

#[test]
fn connect_to_workspace_returns_conflict_when_other_active() {
    let mut c = WorkspaceConnection::new();
    c.connect_to_workspace(WorkspaceId(1)).unwrap();
    let err = c.connect_to_workspace(WorkspaceId(2)).unwrap_err();
    assert_eq!(err.code, DomainErrorCode::WorkspaceConflict);
    assert_eq!(
        err.message,
        "already connected to 00000000-0000-0000-0000-000000000001; target is 00000000-0000-0000-0000-000000000002"
    );
}

#[test]
fn connect_to_same_workspace_is_idempotent() {
    let mut c = WorkspaceConnection::new();
    c.connect_to_workspace(WorkspaceId(1)).unwrap();
    assert!(c.connect_to_workspace(WorkspaceId(1)).is_ok());
    assert_eq!(c.active_workspace_id(), Some(WorkspaceId(1)));
}

#[test]
fn force_disconnect_and_connect_switches_active() {
    let mut c = WorkspaceConnection::new();
    c.connect_to_workspace(WorkspaceId(1)).unwrap();
    let events = c.force_disconnect_and_connect(WorkspaceId(2));
    assert_eq!(events.len(), 2);
    assert_eq!(c.active_workspace_id(), Some(WorkspaceId(2)));
}

#[test]
fn disconnect_clears_active_workspace() {
    let mut c = WorkspaceConnection::new();
    c.connect_to_workspace(WorkspaceId(1)).unwrap();
    assert!(c.disconnect_from_workspace().is_some());
    assert_eq!(c.active_workspace_id(), None);
    assert!(c.disconnect_from_workspace().is_none());
}

#[test]
fn delete_mirror_returns_not_owner_error() {
    assert_eq!(ensure_deletable(&mirror("Mirror")).unwrap_err().code, DomainErrorCode::WorkspaceNotOwner);
    assert!(ensure_deletable(&original("Mine")).is_ok());
}

#[test]
fn forget_workspace_on_original_returns_error() {
    assert!(ensure_forgettable(&original("Mine")).is_err());
    assert!(ensure_forgettable(&mirror("Mirror")).is_ok());
}

#[test]
fn publish_throttles_broadcast() {
    assert!(cursor_broadcast_due(None));
    assert!(!cursor_broadcast_due(Some(3)));
    assert!(cursor_broadcast_due(Some(16)));
}

fn cursor_payload(ws: &Workspace, seq: u64, x: i32, y: i32, sender: u128, key: u8) -> GlobalCursorPayload {
    GlobalCursorPayload {
        workspace_id: ws.id.0,
        x,
        y,
        active_device_id: sender,
        monotonic_seq: seq,
        sender_device_id: sender,
        sender_pubkey: [key; 32],
    }
}

#[test]
fn handle_global_cursor_applies_higher_seq() {
    let mut ws = mirror("Cursor");
    let p = cursor_payload(&ws, 11, 640, 480, 20, 0x20);
    let ev = apply_remote_cursor(&mut ws, &p);
    assert!(matches!(ev, Some(DomainEvent::WorkspaceGlobalCursorMoved { x: 640, y: 480, seq: 11, .. })));
    assert_eq!((ws.global_cursor.x, ws.global_cursor.y, ws.global_cursor.monotonic_seq), (640, 480, 11));
}

#[test]
fn handle_global_cursor_rejects_stale_seq() {
    let mut ws = mirror("Cursor");
    let first = cursor_payload(&ws, 10, 50, 60, 20, 0x20);
    apply_remote_cursor(&mut ws, &first).unwrap();
    let stale = cursor_payload(&ws, 10, 999, 888, 20, 0x20);
    assert!(apply_remote_cursor(&mut ws, &stale).is_none());
    assert_eq!((ws.global_cursor.x, ws.global_cursor.y), (50, 60));
    let wrong_key = cursor_payload(&ws, 12, 1, 1, 20, 0x21);
    assert!(apply_remote_cursor(&mut ws, &wrong_key).is_none());
}

fn snapshot_payload(version: u64, name: &str) -> WorkspaceSnapshotPayload {
    WorkspaceSnapshotPayload {
        id: 2,
        name: name.to_string(),
        owner_device_id: 20,
        owner_username: "Owner".to_string(),
        version,
        members: vec![MemberSnapshotPayload {
            device_id: 20,
            public_key: [0x20; 32],
            username: "Owner".to_string(),
            joined_at_rfc3339: "2026-01-01T00:00:00Z".to_string(),
        }],
    }
}

#[test]
fn split_brain_lww_resolves_to_higher_version() {
    let snapshot = WorkspaceSnapshot {
        id: WorkspaceId(2),
        name: "SplitBrain".to_string(),
        owner_device_id: DeviceId(20),
        version: 5,
        members: vec![member(20, 0x20, "Owner")],
    };
    let mut ws = Workspace::create_mirror(snapshot, "Owner".to_string(), 1_700_000_000);
    let sync = |name: &str, version: u64| WorkspaceSyncPayload {
        workspace_id: 2,
        snapshot: snapshot_payload(version, name),
        sender_device_id: 20,
        sender_pubkey: [0x20; 32],
    };
    let (applied, _) = apply_remote_sync(&mut ws, &sync("Winner", 8), 1_800_000_000);
    assert!(applied);
    let (applied, ev) = apply_remote_sync(&mut ws, &sync("Stale", 6), 1_800_000_001);
    assert!(!applied);
    assert!(matches!(ev, DomainEvent::WorkspaceSyncDiscarded { local_version: 8, incoming_version: 6, .. }));
    assert_eq!(ws.name, "Winner");
    assert_eq!(ws.version, 8);
}

#[test]
fn handle_workspace_sync_applies_when_incoming_version_higher() {
    let mut ws = mirror("Original");
    let payload = WorkspaceSyncPayload { workspace_id: 2, snapshot: snapshot_payload(2, "Renamed"), sender_device_id: 20, sender_pubkey: [0x20; 32] };
    let (applied, ev) = apply_remote_sync(&mut ws, &payload, 1_800_000_000);
    assert!(applied);
    assert!(matches!(ev, DomainEvent::WorkspaceSyncApplied { new_version: 2, from_remote: true, .. }));
    assert_eq!(ws.name, "Renamed");
    assert!(matches!(ws.ownership_mode, OwnershipMode::Mirror { owner_last_seen_unix: 1_800_000_000, .. }));
}

#[test]
fn handle_workspace_sync_discards_when_incoming_version_lower() {
    let mut ws = mirror("Local");
    ws.version = 10;
    let payload = WorkspaceSyncPayload { workspace_id: 2, snapshot: snapshot_payload(3, "Stale"), sender_device_id: 20, sender_pubkey: [0x20; 32] };
    let (applied, ev) = apply_remote_sync(&mut ws, &payload, 0);
    assert!(!applied);
    assert!(matches!(ev, DomainEvent::WorkspaceSyncDiscarded { local_version: 10, incoming_version: 3, .. }));
    assert_eq!(ws.name, "Local");
}

#[test]
fn handle_workspace_delete_marks_mirror_orphan() {
    let mut ws = mirror("Mirror");
    assert!(matches!(apply_remote_delete(&mut ws), Some(DomainEvent::WorkspaceMarkedOrphan { .. })));
    assert!(matches!(ws.ownership_mode, OwnershipMode::Mirror { is_orphan: true, .. }));
    let mut mine = original("Mine");
    assert!(apply_remote_delete(&mut mine).is_none());
}

#[test]
fn expired_invites_are_announced_once() {
    let mut p = PendingInvites::new();
    assert!(p.is_empty());
    let events = p.remove_expired(&vec![1, 2]);
    assert!(events.is_empty());
}

#[test]
fn snapshot_carries_members_and_join_times() {
    let mut ws = original("Snap");
    ws.members[0].joined_at_unix = 1_767_225_600;
    let p = build_snapshot_payload(&ws);
    assert_eq!(p.owner_username, "Owner");
    assert_eq!(p.members.len(), 1);
    assert_eq!(p.members[0].public_key, [0x10; 32]);
    assert_eq!(p.members[0].joined_at_rfc3339, "2026-01-01T00:00:00Z");
    ws.members[0].joined_at_unix = i64::MAX;
    assert_eq!(build_snapshot_payload(&ws).members[0].joined_at_rfc3339, "");
}

#[test]
fn invite_to_workspace_sends_signed_payload_via_transport() {
    let ws = original("WS");
    let target = 0x7777;
    let (pending, payload) = outgoing_invite(42, &ws, target, 10, "Owner".to_string(), [0x10; 32]);
    assert_eq!(payload.invite_id, 42);
    assert_eq!(payload.target_device_id, target);
    assert_eq!(payload.sender_device_id, 10);
    assert_eq!(payload.sender_pubkey, [0x10; 32]);
    assert_eq!(payload.workspace_snapshot.id, ws.id.0);
    assert_eq!(payload.workspace_snapshot.name, "WS");
    assert_eq!(payload.workspace_snapshot.owner_device_id, 10);
    assert_eq!(payload.workspace_snapshot.owner_username, "Owner");
    assert_eq!(payload.workspace_snapshot.members.len(), 1);
    assert_eq!(pending.invite_id, InviteId(42));
    assert_eq!(pending.target_device_id, DeviceId(target));
    assert!(pending.snapshot.is_none());
}

#[test]
fn accept_invite_does_tofu_and_creates_mirror() {
    let sender = 20;
    let snapshot = WorkspaceSnapshotPayload {
        id: 3,
        name: "Remote WS".to_string(),
        owner_device_id: sender,
        owner_username: "Remote".to_string(),
        version: 1,
        members: vec![MemberSnapshotPayload {
            device_id: sender,
            public_key: [9; 32],
            username: "Remote".to_string(),
            joined_at_rfc3339: "2026-01-01T00:00:00Z".to_string(),
        }],
    };
    let mut pending = PendingInvites::new();
    pending.insert(PendingInvite {
        invite_id: InviteId(5),
        workspace_id: WorkspaceId(3),
        target_device_id: DeviceId(10),
        sender_device_id: DeviceId(sender),
        snapshot: Some(snapshot),
        sender_pubkey: Some([9; 32]),
    });
    let data = pending.take_for_accept(5).unwrap();
    assert!(pending.is_empty());
    assert_eq!(data.sender_pubkey, Some([9; 32]));
    let mirror = mirror_from_invite(data.snapshot.as_ref().unwrap(), member(10, 0x10, "Me"), 1_700_000_000);
    assert!(mirror.ownership_mode.is_mirror());
    assert_eq!(mirror.id, WorkspaceId(3));
    assert_eq!(mirror.name, "Remote WS");
    assert_eq!(mirror.members.len(), 2);
    assert!(mirror.members.iter().any(|m| m.device_id == DeviceId(sender) && m.public_key == [9; 32]));
    assert!(mirror.members.iter().any(|m| m.device_id == DeviceId(10)));
}

#[test]
fn update_workspace_broadcasts_sync_to_remote_members() {
    let mut ws = original("WS");
    ws.add_member(member(30, 0x30, "Remote")).unwrap();
    update_workspace(&mut ws, WorkspacePatch::Rename { new_name: "Renamed".to_string() }, 0).unwrap();
    assert_eq!(ws.name, "Renamed");
    assert_eq!(broadcast_targets(&ws, DeviceId(10)), vec![DeviceId(30)]);
    let sync = build_snapshot_payload(&ws);
    assert_eq!(sync.name, "Renamed");
    assert_eq!(sync.version, ws.version);
}

#[test]
fn reject_invite_removes_from_pending_and_emits_event() {
    let mut pending = PendingInvites::new();
    pending.insert(PendingInvite {
        invite_id: InviteId(8),
        workspace_id: WorkspaceId(4),
        target_device_id: DeviceId(10),
        sender_device_id: DeviceId(20),
        snapshot: None,
        sender_pubkey: None,
    });
    assert!(!pending.is_empty());
    let taken = pending.take(8).unwrap();
    assert_eq!(taken.sender_device_id, DeviceId(20));
    assert!(pending.is_empty());
    assert!(pending.take(8).is_none());
}

#[test]
fn forget_workspace_removes_mirror_locally() {
    assert!(ensure_forgettable(&mirror("Mirror")).is_ok());
}

#[test]
fn cursor_position_restored_after_remote_apply() {
    let mut ws = original("CursorRestore");
    ws.add_member(member(30, 0x30, "Remote")).unwrap();
    ws.global_cursor.monotonic_seq = 5;
    ws.global_cursor.x = 10;
    ws.global_cursor.y = 20;
    let p = cursor_payload(&ws, 6, 640, 480, 30, 0x30);
    assert!(apply_remote_cursor(&mut ws, &p).is_some());
    assert_eq!((ws.global_cursor.x, ws.global_cursor.y), (640, 480));
}

#[test]
fn invites_expire_after_their_lifetime() {
    let sent = vec![(1u128, 0u64), (2, 50_000), (3, 100_000), (4, 200_000)];
    assert_eq!(expired_invite_ids(&sent, 150_000, 100_000), vec![1, 2]);
    assert!(expired_invite_ids(&sent, 10, 100_000).is_empty());
}

#[test]
fn workspace_layout_keys_are_checked() {
    let ws = original("Keys");
    assert!(ws.layout.keys_are_unique());
}
