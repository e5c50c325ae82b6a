//! Domain events: what each bounded context announces on the event bus.

use vstd::prelude::*;
use crate::error::DomainErrorCode;
use crate::ids::{DeviceId, InviteId, PeerId, SessionId, WorkspaceId};

verus! {

/// Where mouse and keyboard input currently goes.
#[derive(Clone, Copy, Debug, PartialEq, Eq, Structural)]
pub enum FocusTarget {
    Local,
    Remote(PeerId),
}

/// An action bound to a global hotkey.
#[derive(Clone, Copy, Debug, PartialEq, Eq, Structural)]
pub enum HotkeyAction {
    PanicLocal,
    ToggleLock,
    ForceReset,
    OpenActiveWorkspace,
}

/// Statistics of a transport connection.
#[derive(Clone, Copy, Debug, Default, PartialEq, Eq, Structural)]
pub struct ConnectionStats {
    pub rtt_ms: u32,
    pub tx_bytes: u64,
    pub rx_bytes: u64,
    pub lost_packets: u64,
}

/// Everything published on the event bus.
#[derive(Clone, Debug)]
pub enum DomainEvent {
    DeviceCreated { device_id: DeviceId, fingerprint: String },
    PeerAppeared { peer_id: PeerId, username: String, fingerprint: String },
    PeerDisappeared { peer_id: PeerId },
    PeerUpdated { peer_id: PeerId, username: String },
    PairingIncoming {
        session_id: SessionId,
        peer_id: PeerId,
        peer_username: String,
        initiator_fingerprint: Option<String>,
    },
    PairingCompleted { session_id: SessionId, peer_id: PeerId, peer_username: String },
    PairingCancelled { session_id: SessionId, peer_id: PeerId },
    PairingFailed { session_id: SessionId, peer_id: PeerId, reason: DomainErrorCode },
    ConnectionEstablished {
        peer_id: PeerId,
        peer_username: String,
        is_inbound: bool,
        via_workspace_id: Option<WorkspaceId>,
    },
    ConnectionLost { peer_id: PeerId, reason: String },
    StatsUpdated { peer_id: PeerId, stats: ConnectionStats },
    ClipboardChanged { hash: [u8; 32], byte_len: usize },
    ClipboardReceived { from_peer: PeerId, hash: [u8; 32] },
    FocusSwitched { from: FocusTarget, to: FocusTarget },
    InputBlocked { blocked: bool, peer_id: Option<PeerId> },
    HotkeyTriggered { action: HotkeyAction },
    PeerMonitorsUpdated { peer_id: PeerId, monitor_count: usize },
    KvmLayoutUpdated { peer_id: PeerId },
    WorkspaceInviteIncoming {
        invite_id: InviteId,
        workspace_id: WorkspaceId,
        workspace_name: String,
        sender_device_id: DeviceId,
        sender_username: String,
        sender_fingerprint_hex: String,
    },
    WorkspaceInviteAccepted {
        invite_id: InviteId,
        workspace_id: WorkspaceId,
        accepting_device_id: DeviceId,
    },
    WorkspaceInviteRejected { invite_id: InviteId },
    WorkspaceInviteExpired { invite_id: InviteId },
    WorkspaceConnected { workspace_id: WorkspaceId },
    WorkspaceDisconnected { workspace_id: WorkspaceId },
    WorkspaceDeleted { workspace_id: WorkspaceId },
    WorkspaceSyncApplied {
        workspace_id: WorkspaceId,
        new_version: u64,
        workspace_name: String,
        from_remote: bool,
    },
    WorkspaceSyncDiscarded { workspace_id: WorkspaceId, local_version: u64, incoming_version: u64 },
    WorkspaceMarkedOrphan { workspace_id: WorkspaceId },
    WorkspaceMemberJoined { workspace_id: WorkspaceId, device_id: DeviceId, username: String },
    WorkspaceMemberPresenceChanged { workspace_id: WorkspaceId, device_id: DeviceId, is_online: bool },
    WorkspaceGlobalCursorMoved { workspace_id: WorkspaceId, x: i32, y: i32, seq: u64 },
}

} // verus!
