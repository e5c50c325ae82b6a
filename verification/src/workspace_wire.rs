//! Messages exchanged between workspace members over the invite channel.

use vstd::prelude::*;

verus! {

/// A member as it travels in a workspace snapshot.
#[derive(Clone, Debug)]
pub struct MemberSnapshotPayload {
    pub device_id: u128,
    pub public_key: [u8; 32],
    pub username: String,
    pub joined_at_rfc3339: String,
}

/// The owner's view of a workspace, sent in invites and syncs.
#[derive(Clone, Debug)]
pub struct WorkspaceSnapshotPayload {
    pub id: u128,
    pub name: String,
    pub owner_device_id: u128,
    pub owner_username: String,
    pub version: u64,
    pub members: Vec<MemberSnapshotPayload>,
}

/// An invitation to join a workspace.
#[derive(Clone, Debug)]
pub struct WorkspaceInvitePayload {
    pub invite_id: u128,
    pub workspace_snapshot: WorkspaceSnapshotPayload,
    pub sender_device_id: u128,
    pub sender_username: String,
    pub sender_pubkey: [u8; 32],
    pub target_device_id: u128,
}

/// The answer to an invitation.
#[derive(Clone, Debug)]
pub struct WorkspaceInviteResponsePayload {
    pub invite_id: u128,
    pub responder_device_id: u128,
    pub responder_pubkey: [u8; 32],
    pub accepted: bool,
    pub responder_username: String,
}

/// The owner's new snapshot of a workspace.
#[derive(Clone, Debug)]
pub struct WorkspaceSyncPayload {
    pub workspace_id: u128,
    pub snapshot: WorkspaceSnapshotPayload,
    pub sender_device_id: u128,
    pub sender_pubkey: [u8; 32],
}

/// The owner deleted a workspace.
#[derive(Clone, Debug)]
pub struct WorkspaceDeletePayload {
    pub workspace_id: u128,
    pub sender_device_id: u128,
    pub sender_pubkey: [u8; 32],
}

/// A member moved the shared cursor.
#[derive(Clone, Copy, Debug)]
pub struct GlobalCursorPayload {
    pub workspace_id: u128,
    pub x: i32,
    pub y: i32,
    pub active_device_id: u128,
    pub monotonic_seq: u64,
    pub sender_device_id: u128,
    pub sender_pubkey: [u8; 32],
}

/// Everything sent on the invite channel.
#[derive(Clone, Debug)]
pub enum WorkspaceInviteMessage {
    Invite(WorkspaceInvitePayload),
    Response(WorkspaceInviteResponsePayload),
    Cancel { invite_id: u128 },
    Sync(WorkspaceSyncPayload),
    Delete(WorkspaceDeletePayload),
    GlobalCursor(GlobalCursorPayload),
}

} // verus!
