//! The workspace use cases: which workspace is connected, how local edits,
//! invites and messages from other members change a stored workspace, and
//! which events each step announces.

use vstd::prelude::*;
use crate::error::{fails_with, DomainError, DomainErrorCode};
use crate::events::DomainEvent;
use crate::ids::{DeviceId, InviteId, PeerId, WorkspaceId};
use crate::time_text::{
    format_rfc3339, max_unix_timestamp, min_unix_timestamp, offset_datetime_from_unix, rfc3339_text,
};
use std::collections::HashMap;
use crate::layout::{get_entry, keys_unique, MonitorLayout, MonitorLayoutView, MonitorRect};
use crate::uuid_text::{uuid_hyphenated, uuid_to_string};
use crate::workspace::{
    add_member_post, cursor_of_update, has_member, initial_cursor, initial_version, next_version,
    orphaned, owner_seen_at, remove_member_post, rename_post, update_layout_post, with_cursor,
    with_ownership, GlobalCursor, GlobalCursorUpdate, OwnershipMode, SyncOutcome, Workspace,
    WorkspaceMember, WorkspaceRuleError, WorkspaceSnapshot,
};
use crate::workspace_wire::{
    GlobalCursorPayload, MemberSnapshotPayload, WorkspaceInvitePayload, WorkspaceSnapshotPayload,
    WorkspaceSyncPayload,
};

verus! {

/// The message of a refused connection to `target` while `current` is
/// connected.
pub open spec fn conflict_text(current: WorkspaceId, target: WorkspaceId) -> Seq<char> {
    "already connected to "@ + uuid_hyphenated(current.0) + "; target is "@ + uuid_hyphenated(target.0)
}

/// Which workspace this device is connected to, if any.
pub struct WorkspaceConnection {
    active: Option<WorkspaceId>,
}

impl View for WorkspaceConnection {
    type V = Option<WorkspaceId>;

    closed spec fn view(&self) -> Option<WorkspaceId> {
        self.active
    }
}

impl WorkspaceConnection {
    /// Not connected to any workspace.
    pub fn new() -> (c: Self)
        ensures
            c@ is None,
    {
        WorkspaceConnection { active: None }
    }

    /// The connected workspace.
    pub fn active_workspace_id(&self) -> (r: Option<WorkspaceId>)
        ensures
            r == self@,
    {
        self.active
    }

    /// Connects to `id`. Refused with `WorkspaceConflict`, naming both
    /// workspaces, while another one is connected; connecting again to the
    /// same one succeeds.
    pub fn connect_to_workspace(&mut self, id: WorkspaceId) -> (r: Result<DomainEvent, DomainError>)
        ensures
            (old(self)@ matches Some(cur) && cur != id) ==> fails_with(r, DomainErrorCode::WorkspaceConflict) && final(self)@ == old(self)@
                && r->Err_0.message@ == conflict_text(old(self)@.unwrap(), id),
            !(old(self)@ matches Some(cur) && cur != id) ==> r == Ok::<DomainEvent, DomainError>(
                DomainEvent::WorkspaceConnected { workspace_id: id },
            ) && final(self)@ == Some(id),
    {
        if let Some(cur) = self.active {
            if cur != id {
                let message = "already connected to ".to_owned().concat(uuid_to_string(cur.0).as_str()).concat(
                    "; target is ",
                ).concat(uuid_to_string(id.0).as_str());
                return Err(DomainError { code: DomainErrorCode::WorkspaceConflict, message });
            }
        }
        self.active = Some(id);
        Ok(DomainEvent::WorkspaceConnected { workspace_id: id })
    }

    /// Disconnects; announces it only when a workspace was connected.
    pub fn disconnect_from_workspace(&mut self) -> (r: Option<DomainEvent>)
        ensures
            final(self)@ is None,
            old(self)@ is None ==> r is None,
            old(self)@ matches Some(w) ==> r == Some(DomainEvent::WorkspaceDisconnected { workspace_id: w }),
    {
        match self.active {
            None => None,
            Some(w) => {
                self.active = None;
                Some(DomainEvent::WorkspaceDisconnected { workspace_id: w })
            },
        }
    }

    /// Leaves whatever workspace is connected and connects to `id`.
    pub fn force_disconnect_and_connect(&mut self, id: WorkspaceId) -> (r: Vec<DomainEvent>)
        ensures
            final(self)@ == Some(id),
            old(self)@ is None ==> r@ == seq![DomainEvent::WorkspaceConnected { workspace_id: id }],
            old(self)@ matches Some(w) ==> r@ == seq![
                DomainEvent::WorkspaceDisconnected { workspace_id: w },
                DomainEvent::WorkspaceConnected { workspace_id: id },
            ],
    {
        let mut events: Vec<DomainEvent> = Vec::new();
        if let Some(w) = self.active {
            events.push(DomainEvent::WorkspaceDisconnected { workspace_id: w });
        }
        self.active = Some(id);
        events.push(DomainEvent::WorkspaceConnected { workspace_id: id });
        events
    }
}

/// A change to a workspace made on its owner's device.
#[derive(Clone, Debug)]
pub enum WorkspacePatch {
    Rename { new_name: String },
    AddMember { device_id: DeviceId, public_key: [u8; 32], username: String },
    RemoveMember { device_id: DeviceId },
    UpdateLayout { device_id: DeviceId, layout: MonitorLayout },
}

/// The error code a workspace rule maps to.
pub open spec fn rule_error_code(e: WorkspaceRuleError) -> DomainErrorCode {
    if e == WorkspaceRuleError::MirrorImmutable {
        DomainErrorCode::WorkspaceMirrorImmutable
    } else {
        DomainErrorCode::InternalError
    }
}

/// The member a patch adds, joining at `now_unix`.
pub open spec fn patch_member(device_id: DeviceId, public_key: [u8; 32], username: String, now_unix: i64) -> WorkspaceMember {
    WorkspaceMember { device_id, public_key, username_cache: username, joined_at_unix: now_unix }
}

/// What a patch did under the workspace rules.
pub open spec fn patch_post(
    old_ws: Workspace,
    new_ws: Workspace,
    patch: WorkspacePatch,
    now_unix: i64,
    r: Result<(), WorkspaceRuleError>,
) -> bool {
    match patch {
        WorkspacePatch::Rename { new_name } => rename_post(old_ws, new_ws, new_name, r),
        WorkspacePatch::AddMember { device_id, public_key, username } => add_member_post(
            old_ws,
            new_ws,
            patch_member(device_id, public_key, username, now_unix),
            r,
        ),
        WorkspacePatch::RemoveMember { device_id } => remove_member_post(old_ws, new_ws, device_id, r),
        WorkspacePatch::UpdateLayout { device_id, layout } => update_layout_post(
            old_ws,
            new_ws,
            device_id,
            layout,
            r,
        ),
    }
}

/// Whether a domain error reports the rule outcome `rr`.
pub open spec fn reports(r: Result<(), DomainError>, rr: Result<(), WorkspaceRuleError>) -> bool {
    match rr {
        Ok(()) => r is Ok,
        Err(e) => fails_with(r, rule_error_code(e)),
    }
}

/// Applies a patch to a workspace under the workspace rules.
pub fn apply_patch_local(ws: &mut Workspace, patch: WorkspacePatch, now_unix: i64) -> (r: Result<(), DomainError>)
    requires
        old(ws).wf(),
    ensures
        final(ws).wf(),
        exists|rr: Result<(), WorkspaceRuleError>|
            patch_post(*old(ws), *final(ws), patch, now_unix, rr) && reports(r, rr),
{
    let ghost p = patch;
    let rr = match patch {
        WorkspacePatch::Rename { new_name } => ws.rename(new_name),
        WorkspacePatch::AddMember { device_id, public_key, username } => ws.add_member(
            WorkspaceMember { device_id, public_key, username_cache: username, joined_at_unix: now_unix },
        ),
        WorkspacePatch::RemoveMember { device_id } => ws.remove_member(device_id),
        WorkspacePatch::UpdateLayout { device_id, layout } => ws.update_layout(device_id, layout),
    };
    let r = match rr {
        Ok(()) => Ok(()),
        Err(e) => {
            if e == WorkspaceRuleError::MirrorImmutable {
                Err(DomainError::new(DomainErrorCode::WorkspaceMirrorImmutable, "workspace.mirror_immutable"))
            } else {
                Err(DomainError::new(DomainErrorCode::InternalError, "workspace rule refused the change"))
            }
        },
    };
    assert(patch_post(*old(ws), *ws, p, now_unix, rr) && reports(r, rr));
    r
}

/// The event announcing a workspace's current name and version.
pub open spec fn sync_applied_event(ws: Workspace, from_remote: bool) -> DomainEvent {
    DomainEvent::WorkspaceSyncApplied {
        workspace_id: ws.id,
        new_version: ws.version,
        workspace_name: ws.name,
        from_remote,
    }
}

fn sync_applied(ws: &Workspace, from_remote: bool) -> (e: DomainEvent)
    ensures
        e == sync_applied_event(*ws, from_remote),
{
    DomainEvent::WorkspaceSyncApplied {
        workspace_id: ws.id,
        new_version: ws.version,
        workspace_name: ws.name.clone(),
        from_remote,
    }
}

/// Edits a workspace on its owner's device. A mirror is refused with
/// `WorkspaceMirrorImmutable` and left as it was; otherwise the patch is
/// applied under the workspace rules and, when it succeeds, the new name
/// and version are announced.
pub fn update_workspace(ws: &mut Workspace, patch: WorkspacePatch, now_unix: i64) -> (r: Result<DomainEvent, DomainError>)
    requires
        old(ws).wf(),
    ensures
        final(ws).wf(),
        old(ws).ownership_mode is Mirror ==> fails_with(r, DomainErrorCode::WorkspaceMirrorImmutable)
            && *final(ws) == *old(ws),
        old(ws).ownership_mode is Original ==> exists|rr: Result<(), WorkspaceRuleError>|
            patch_post(*old(ws), *final(ws), patch, now_unix, rr) && match rr {
                Ok(()) => r == Ok::<DomainEvent, DomainError>(sync_applied_event(*final(ws), false)),
                Err(e) => fails_with(r, rule_error_code(e)),
            },
{
    if ws.ownership_mode.is_mirror() {
        return Err(DomainError::new(DomainErrorCode::WorkspaceMirrorImmutable, "mirrors cannot be edited locally"));
    }
    match apply_patch_local(ws, patch, now_unix) {
        Ok(()) => Ok(sync_applied(ws, false)),
        Err(e) => Err(e),
    }
}

/// Only an original sends invites: a mirror is refused with `WorkspaceMirrorImmutable`.
pub fn ensure_can_invite(ws: &Workspace) -> (r: Result<(), DomainError>)
    ensures
        ws.ownership_mode is Original ==> r is Ok,
        ws.ownership_mode is Mirror ==> fails_with(r, DomainErrorCode::WorkspaceMirrorImmutable),
{
    if ws.ownership_mode.is_mirror() {
        Err(DomainError::new(DomainErrorCode::WorkspaceMirrorImmutable, "mirrors cannot send invites"))
    } else {
        Ok(())
    }
}

/// Only an original is deleted: a mirror is refused with `WorkspaceNotOwner`.
pub fn ensure_deletable(ws: &Workspace) -> (r: Result<(), DomainError>)
    ensures
        ws.ownership_mode is Original ==> r is Ok,
        ws.ownership_mode is Mirror ==> fails_with(r, DomainErrorCode::WorkspaceNotOwner),
{
    if ws.ownership_mode.is_mirror() {
        Err(DomainError::new(DomainErrorCode::WorkspaceNotOwner, "use forget_workspace to remove a mirror locally"))
    } else {
        Ok(())
    }
}

/// Only a mirror is forgotten: an original is refused with `WorkspaceMirrorImmutable`.
pub fn ensure_forgettable(ws: &Workspace) -> (r: Result<(), DomainError>)
    ensures
        ws.ownership_mode is Mirror ==> r is Ok,
        ws.ownership_mode is Original ==> fails_with(r, DomainErrorCode::WorkspaceMirrorImmutable),
{
    if ws.ownership_mode.is_mirror() {
        Ok(())
    } else {
        Err(DomainError::new(DomainErrorCode::WorkspaceMirrorImmutable, "use delete_workspace on originals"))
    }
}

/// The member a snapshot entry stands for, joining at `now_unix`.
pub open spec fn member_from_payload_spec(p: MemberSnapshotPayload, now_unix: i64) -> WorkspaceMember {
    WorkspaceMember {
        device_id: DeviceId(p.device_id),
        public_key: p.public_key,
        username_cache: p.username,
        joined_at_unix: now_unix,
    }
}

/// The members a list of snapshot entries stands for, in the same order.
pub open spec fn members_from_payload_spec(s: Seq<MemberSnapshotPayload>, now_unix: i64) -> Seq<WorkspaceMember> {
    s.map_values(|p: MemberSnapshotPayload| member_from_payload_spec(p, now_unix))
}

/// The members a list of snapshot entries stands for, in the same order.
pub fn members_from_payload(ms: &Vec<MemberSnapshotPayload>, now_unix: i64) -> (out: Vec<WorkspaceMember>)
    ensures
        out@ == members_from_payload_spec(ms@, now_unix),
{
    let mut out: Vec<WorkspaceMember> = Vec::new();
    let mut i: usize = 0;
    while i < ms.len()
        invariant
            i <= ms@.len(),
            out@ == members_from_payload_spec(ms@.subrange(0, i as int), now_unix),
        decreases ms@.len() - i,
    {
        let p = &ms[i];
        out.push(WorkspaceMember {
            device_id: DeviceId(p.device_id),
            public_key: p.public_key,
            username_cache: p.username.clone(),
            joined_at_unix: now_unix,
        });
        proof {
            assert(ms@.subrange(0, i + 1) == ms@.subrange(0, i as int).push(ms@[i as int]));
        }
        i = i + 1;
    }
    proof {
        assert(ms@.subrange(0, ms@.len() as int) == ms@);
    }
    out
}

/// Takes the owner's sync under last-writer-wins. A strictly higher version
/// replaces name, owner, version and members (members join at `now_unix`)
/// and, on a mirror, records that the owner was heard from; any other version
/// leaves the workspace as it was. The event says which happened.
pub fn apply_remote_sync(ws: &mut Workspace, payload: &WorkspaceSyncPayload, now_unix: i64) -> (r: (bool, DomainEvent))
    requires
        old(ws).wf(),
    ensures
        final(ws).wf(),
        r.0 == (payload.snapshot.version > old(ws).version),
        r.0 ==> {
            &&& final(ws).name@ == payload.snapshot.name@
            &&& final(ws).owner_device_id == DeviceId(payload.snapshot.owner_device_id)
            &&& final(ws).version == payload.snapshot.version
            &&& final(ws).members@ == members_from_payload_spec(payload.snapshot.members@, now_unix)
            &&& final(ws).ownership_mode == owner_seen_at(old(ws).ownership_mode, now_unix)
            &&& final(ws).id == old(ws).id
            &&& final(ws).layout == old(ws).layout
            &&& final(ws).global_cursor == old(ws).global_cursor
            &&& r.1 == sync_applied_event(*final(ws), true)
        },
        !r.0 ==> {
            &&& *final(ws) == *old(ws)
            &&& r.1 == (DomainEvent::WorkspaceSyncDiscarded {
                workspace_id: old(ws).id,
                local_version: old(ws).version,
                incoming_version: payload.snapshot.version,
            })
        },
{
    let snapshot = WorkspaceSnapshot {
        id: WorkspaceId(payload.workspace_id),
        name: payload.snapshot.name.clone(),
        owner_device_id: DeviceId(payload.snapshot.owner_device_id),
        version: payload.snapshot.version,
        members: members_from_payload(&payload.snapshot.members, now_unix),
    };
    let local_version = ws.version;
    match ws.apply_sync(snapshot) {
        SyncOutcome::Applied => {
            ws.touch_owner_seen(now_unix);
            (true, sync_applied(ws, true))
        },
        SyncOutcome::Discarded { incoming_version, .. } => (
            false,
            DomainEvent::WorkspaceSyncDiscarded {
                workspace_id: ws.id,
                local_version,
                incoming_version,
            },
        ),
    }
}

/// The owner deleted the workspace: a mirror becomes an orphan and that is
/// announced; an original is left alone.
pub fn apply_remote_delete(ws: &mut Workspace) -> (r: Option<DomainEvent>)
    ensures
        old(ws).ownership_mode is Original ==> r is None && *final(ws) == *old(ws),
        old(ws).ownership_mode is Mirror ==> r == Some(DomainEvent::WorkspaceMarkedOrphan { workspace_id: old(ws).id })
            && *final(ws) == with_ownership(*old(ws), orphaned(old(ws).ownership_mode)),
{
    if !ws.ownership_mode.is_mirror() {
        return None;
    }
    let _ = ws.mark_orphan();
    Some(DomainEvent::WorkspaceMarkedOrphan { workspace_id: ws.id })
}

/// Whether two keys are equal, byte by byte.
pub fn keys_equal(a: &[u8; 32], b: &[u8; 32]) -> (r: bool)
    ensures
        r == (a@ == b@),
{
    let mut i: usize = 0;
    while i < 32
        invariant
            i <= 32,
            a@.len() == 32,
            b@.len() == 32,
            forall|k: int| 0 <= k < i ==> a@[k] == b@[k],
        decreases 32 - i,
    {
        if a[i] != b[i] {
            return false;
        }
        i = i + 1;
    }
    assert(a@ =~= b@);
    true
}

/// Whether some member has device `d` and public key `pk`.
pub open spec fn is_member_with_key(members: Seq<WorkspaceMember>, d: DeviceId, pk: [u8; 32]) -> bool {
    exists|i: int| 0 <= i < members.len() && members[i].device_id == d && members[i].public_key@ == pk@
}

/// Whether some member has device `d` and public key `pk`.
pub fn member_with_key(ws: &Workspace, d: DeviceId, pk: &[u8; 32]) -> (r: bool)
    ensures
        r == is_member_with_key(ws.members@, d, *pk),
{
    let mut i: usize = 0;
    while i < ws.members.len()
        invariant
            i <= ws.members@.len(),
            forall|k: int| 0 <= k < i ==> !(ws.members@[k].device_id == d && ws.members@[k].public_key@ == pk@),
        decreases ws.members@.len() - i,
    {
        if ws.members[i].device_id == d && keys_equal(&ws.members[i].public_key, pk) {
            return true;
        }
        i = i + 1;
    }
    false
}

/// The cursor update a payload announces.
pub open spec fn update_of_payload(p: GlobalCursorPayload) -> GlobalCursorUpdate {
    GlobalCursorUpdate {
        x: p.x,
        y: p.y,
        active_device_id: DeviceId(p.active_device_id),
        monotonic_seq: p.monotonic_seq,
    }
}

/// A member moved the shared cursor. Taken, and announced, exactly when the
/// sender is a member with that public key and the sequence number is
/// strictly higher than the current one; otherwise nothing changes.
pub fn apply_remote_cursor(ws: &mut Workspace, payload: &GlobalCursorPayload) -> (r: Option<DomainEvent>)
    ensures
        (r is Some) == (is_member_with_key(old(ws).members@, DeviceId(payload.sender_device_id), payload.sender_pubkey)
            && payload.monotonic_seq > old(ws).global_cursor.monotonic_seq),
        r is Some ==> r == Some(DomainEvent::WorkspaceGlobalCursorMoved {
            workspace_id: old(ws).id,
            x: payload.x,
            y: payload.y,
            seq: payload.monotonic_seq,
        }) && *final(ws) == with_cursor(*old(ws), cursor_of_update(update_of_payload(*payload))),
        r is None ==> *final(ws) == *old(ws),
{
    if !member_with_key(ws, DeviceId(payload.sender_device_id), &payload.sender_pubkey) {
        return None;
    }
    let update = GlobalCursorUpdate {
        x: payload.x,
        y: payload.y,
        active_device_id: DeviceId(payload.active_device_id),
        monotonic_seq: payload.monotonic_seq,
    };
    if !ws.apply_cursor(update) {
        return None;
    }
    Some(DomainEvent::WorkspaceGlobalCursorMoved {
        workspace_id: ws.id,
        x: payload.x,
        y: payload.y,
        seq: payload.monotonic_seq,
    })
}

/// Shortest gap between two cursor broadcasts, in milliseconds (about 60 Hz).
pub const CURSOR_BROADCAST_MIN_INTERVAL_MS: u64 = 16;

/// Whether a cursor broadcast may go out, given the milliseconds since the
/// previous one (none yet: it may).
pub fn cursor_broadcast_due(elapsed_since_last_ms: Option<u64>) -> (b: bool)
    ensures
        b == match elapsed_since_last_ms {
            None => true,
            Some(e) => e >= CURSOR_BROADCAST_MIN_INTERVAL_MS,
        },
{
    match elapsed_since_last_ms {
        None => true,
        Some(e) => e >= CURSOR_BROADCAST_MIN_INTERVAL_MS,
    }
}

/// Moves the shared cursor locally and builds the event and the signed
/// message that announce it.
pub fn publish_local_cursor(
    ws: &mut Workspace,
    x: i32,
    y: i32,
    local_device: DeviceId,
    local_pubkey: [u8; 32],
) -> (r: (DomainEvent, GlobalCursorPayload))
    ensures
        final(ws).global_cursor == (GlobalCursor {
            x,
            y,
            active_device_id: Some(local_device),
            monotonic_seq: next_version(old(ws).global_cursor.monotonic_seq),
        }),
        *final(ws) == with_cursor(*old(ws), final(ws).global_cursor),
        r.0 == (DomainEvent::WorkspaceGlobalCursorMoved {
            workspace_id: old(ws).id,
            x,
            y,
            seq: final(ws).global_cursor.monotonic_seq,
        }),
        r.1.workspace_id == old(ws).id.0,
        r.1.x == x && r.1.y == y,
        r.1.active_device_id == local_device.0,
        r.1.monotonic_seq == final(ws).global_cursor.monotonic_seq,
        r.1.sender_device_id == local_device.0,
        r.1.sender_pubkey == local_pubkey,
{
    ws.update_local_cursor(x, y, local_device);
    let seq = ws.global_cursor.monotonic_seq;
    (
        DomainEvent::WorkspaceGlobalCursorMoved { workspace_id: ws.id, x, y, seq },
        GlobalCursorPayload {
            workspace_id: ws.id.0,
            x,
            y,
            active_device_id: local_device.0,
            monotonic_seq: seq,
            sender_device_id: local_device.0,
            sender_pubkey: local_pubkey,
        },
    )
}

/// The owner learns that `device` accepted an invite. A mirror, or a device
/// already present, changes nothing; otherwise the device joins (at
/// `now_unix`) and the join and the new version are announced.
pub fn register_accepted_member(
    ws: &mut Workspace,
    device: DeviceId,
    public_key: [u8; 32],
    username: String,
    now_unix: i64,
) -> (r: Vec<DomainEvent>)
    ensures
        (old(ws).ownership_mode is Mirror || has_member(old(ws).members@, device)) ==> r@.len() == 0
            && *final(ws) == *old(ws),
        (old(ws).ownership_mode is Original && !has_member(old(ws).members@, device)) ==> {
            &&& add_member_post(*old(ws), *final(ws), patch_member(device, public_key, username, now_unix), Ok(()))
            &&& r@ == seq![
                DomainEvent::WorkspaceMemberJoined { workspace_id: old(ws).id, device_id: device, username: username },
                sync_applied_event(*final(ws), false),
            ]
        },
{
    if ws.ownership_mode.is_mirror() {
        return Vec::new();
    }
    if ws.find_member(device).is_some() {
        return Vec::new();
    }
    let joined_name = username.clone();
    let r = ws.add_member(WorkspaceMember { device_id: device, public_key, username_cache: username, joined_at_unix: now_unix });
    let mut events: Vec<DomainEvent> = Vec::new();
    if r.is_ok() {
        events.push(DomainEvent::WorkspaceMemberJoined { workspace_id: ws.id, device_id: device, username: joined_name });
        events.push(sync_applied(ws, false));
    }
    events
}

/// The name shown for a device that answered an invite: its username, or
/// the device id when the username is empty.
pub fn responder_display_name(username: String, device: DeviceId) -> (s: String)
    ensures
        username@.len() == 0 ==> s@ == uuid_hyphenated(device.0),
        username@.len() > 0 ==> s@ == username@,
{
    if username.as_str().is_empty() {
        uuid_to_string(device.0)
    } else {
        username
    }
}

/// The members of a mirror built from an invite: the snapshot's members
/// (joining at `now_unix`), then the local member when it is not among them.
pub open spec fn mirror_members_spec(s: Seq<MemberSnapshotPayload>, local: WorkspaceMember, now_unix: i64) -> Seq<WorkspaceMember> {
    let m = members_from_payload_spec(s, now_unix);
    if has_member(m, local.device_id) {
        m
    } else {
        m.push(local)
    }
}

/// The mirror this device keeps after accepting an invite: the snapshot's
/// id, name and owner, the initial version, and the members of
/// [`mirror_members_spec`].
pub fn mirror_from_invite(
    snapshot: &WorkspaceSnapshotPayload,
    local_member: WorkspaceMember,
    now_unix: i64,
) -> (ws: Workspace)
    ensures
        ws.id == WorkspaceId(snapshot.id),
        ws.name@ == snapshot.name@,
        ws.owner_device_id == DeviceId(snapshot.owner_device_id),
        ws.version == initial_version(),
        ws.members@ == mirror_members_spec(snapshot.members@, local_member, now_unix),
        ws.ownership_mode == (OwnershipMode::Mirror {
            owner_username: snapshot.owner_username,
            owner_last_seen_unix: now_unix,
            is_orphan: false,
        }),
        ws.layout@.len() == 0,
        ws.global_cursor == initial_cursor(),
        ws.wf(),
{
    let mut members = members_from_payload(&snapshot.members, now_unix);
    let ghost m0 = members@;
    let mut present = false;
    let mut i: usize = 0;
    while i < members.len()
        invariant
            i <= members@.len(),
            members@ == m0,
            present == (exists|k: int| 0 <= k < i && members@[k].device_id == local_member.device_id),
        decreases members@.len() - i,
    {
        if members[i].device_id == local_member.device_id {
            present = true;
        }
        i = i + 1;
    }
    if !present {
        members.push(local_member);
    }
    Workspace::create_mirror(
        WorkspaceSnapshot {
            id: WorkspaceId(snapshot.id),
            name: snapshot.name.clone(),
            owner_device_id: DeviceId(snapshot.owner_device_id),
            version: 1,
            members,
        },
        snapshot.owner_username.clone(),
        now_unix,
    )
}

/// The remote peer that input control uses for a workspace: the first
/// member that is not this device.
pub fn primary_remote_peer(ws: &Workspace, local: DeviceId) -> (r: Option<PeerId>)
    ensures
        r is None <==> forall|i: int| 0 <= i < ws.members@.len() ==> ws.members@[i].device_id == local,
        r matches Some(p) ==> exists|i: int|
            0 <= i < ws.members@.len() && ws.members@[i].device_id != local && p.0 == ws.members@[i].device_id.0
                && forall|j: int| 0 <= j < i ==> ws.members@[j].device_id == local,
{
    let mut i: usize = 0;
    while i < ws.members.len()
        invariant
            i <= ws.members@.len(),
            forall|j: int| 0 <= j < i ==> ws.members@[j].device_id == local,
        decreases ws.members@.len() - i,
    {
        if ws.members[i].device_id != local {
            return Some(PeerId(ws.members[i].device_id.0));
        }
        i = i + 1;
    }
    None
}

/// The layout input control uses with `remote_peer` in a workspace.
#[derive(Clone, Debug)]
pub enum InputLayoutChoice {
    /// The peer is not a member: the workspace gives no layout.
    NotMember,
    /// The layout saved for this device, with the current local monitors
    /// and the peer filled in.
    Saved(MonitorLayout),
    /// No layout saved: the default side-by-side layout of the local
    /// monitors and the peer.
    DefaultSideBySide,
}

/// The layout input control runs with a peer.
#[derive(Clone, Debug)]
pub enum RuntimeLayout {
    /// This layout.
    Use(MonitorLayout),
    /// The default side-by-side layout of the local monitors and the peer.
    DefaultSideBySide,
}

/// Which layout input control runs with a peer: the connected workspace's
/// choice when it gives one (its saved layout, or the default); otherwise
/// the layout stored for the peer; otherwise the default.
pub fn pick_runtime_layout(workspace: Option<InputLayoutChoice>, stored: Option<MonitorLayout>) -> (r: RuntimeLayout)
    ensures
        match workspace {
            Some(InputLayoutChoice::Saved(l)) => r == RuntimeLayout::Use(l),
            Some(InputLayoutChoice::DefaultSideBySide) => r is DefaultSideBySide,
            _ => match stored {
                Some(l) => r == RuntimeLayout::Use(l),
                None => r is DefaultSideBySide,
            },
        },
{
    match workspace {
        Some(InputLayoutChoice::Saved(l)) => RuntimeLayout::Use(l),
        Some(InputLayoutChoice::DefaultSideBySide) => RuntimeLayout::DefaultSideBySide,
        _ => match stored {
            Some(l) => RuntimeLayout::Use(l),
            None => RuntimeLayout::DefaultSideBySide,
        },
    }
}

/// Chooses the layout input control uses with `remote_peer` (see
/// [`InputLayoutChoice`]).
pub fn resolve_input_layout(ws: &Workspace, local: DeviceId, remote_peer: PeerId, local_monitors: Vec<MonitorRect>) -> (r: InputLayoutChoice)
    requires
        keys_unique(ws.layout@),
    ensures
        !has_member(ws.members@, DeviceId(remote_peer.0)) ==> r is NotMember,
        has_member(ws.members@, DeviceId(remote_peer.0)) ==> match get_entry(ws.layout@, local) {
            Some(saved) => r matches InputLayoutChoice::Saved(l) && l@ == (MonitorLayoutView {
                local_monitors: local_monitors@,
                remote_peer,
                ..saved
            }),
            None => r is DefaultSideBySide,
        },
{
    if ws.find_member(DeviceId(remote_peer.0)).is_none() {
        return InputLayoutChoice::NotMember;
    }
    match ws.layout.get(local) {
        Some(saved) => {
            let mut layout = saved.clone_layout();
            layout.local_monitors = local_monitors;
            layout.remote_peer = remote_peer;
            InputLayoutChoice::Saved(layout)
        },
        None => InputLayoutChoice::DefaultSideBySide,
    }
}

/// The members a broadcast goes to: every member but this device, in order.
pub open spec fn broadcast_targets_spec(members: Seq<WorkspaceMember>, local: DeviceId) -> Seq<DeviceId>
    decreases members.len(),
{
    if members.len() == 0 {
        Seq::empty()
    } else {
        let rest = broadcast_targets_spec(members.drop_last(), local);
        if members.last().device_id == local {
            rest
        } else {
            rest.push(members.last().device_id)
        }
    }
}

/// A sync or cursor broadcast reaches every member but this device, once
/// and in member order: the targets are the devices of the members whose
/// device is not `local`. So each other member is a target, and this
/// device never is.
pub proof fn broadcast_reaches_every_other_member(members: Seq<WorkspaceMember>, local: DeviceId)
    ensures
        broadcast_targets_spec(members, local) == members.filter(|m: WorkspaceMember| m.device_id != local).map_values(
            |m: WorkspaceMember| m.device_id,
        ),
        forall|i: int| 0 <= i < members.len() && members[i].device_id != local ==> broadcast_targets_spec(
            members,
            local,
        ).contains(#[trigger] members[i].device_id),
        !broadcast_targets_spec(members, local).contains(local),
    decreases members.len(),
{
    let pred = |m: WorkspaceMember| m.device_id != local;
    let f = |m: WorkspaceMember| m.device_id;
    if members.len() > 0 {
        let p = members.drop_last();
        broadcast_reaches_every_other_member(p, local);
        assert(members == p.push(members.last()));
        p.lemma_filter_push(members.last(), pred);
        assert(broadcast_targets_spec(members, local) =~= members.filter(pred).map_values(f));
    } else {
        reveal_with_fuel(Seq::filter, 1);
        assert(members.filter(pred).map_values(f) =~= Seq::<DeviceId>::empty());
    }
    let t = broadcast_targets_spec(members, local);
    let fl = members.filter(pred);
    assert forall|i: int| 0 <= i < members.len() && members[i].device_id != local implies t.contains(
        #[trigger] members[i].device_id,
    ) by {
        members.lemma_filter_contains(pred, i);
        let j = choose|j: int| 0 <= j < fl.len() && fl[j] == members[i];
        assert(t[j] == members[i].device_id);
    }
    if t.contains(local) {
        let j = choose|j: int| 0 <= j < t.len() && t[j] == local;
        members.lemma_filter_pred(pred, j);
    }
}

/// The members a broadcast goes to: every member but this device, in order.
pub fn broadcast_targets(ws: &Workspace, local: DeviceId) -> (out: Vec<DeviceId>)
    ensures
        out@ == broadcast_targets_spec(ws.members@, local),
{
    let mut out: Vec<DeviceId> = Vec::new();
    let mut i: usize = 0;
    while i < ws.members.len()
        invariant
            i <= ws.members@.len(),
            out@ == broadcast_targets_spec(ws.members@.subrange(0, i as int), local),
        decreases ws.members@.len() - i,
    {
        let d = ws.members[i].device_id;
        proof {
            let s = ws.members@.subrange(0, i + 1);
            assert(s.drop_last() == ws.members@.subrange(0, i as int));
            assert(s.last() == ws.members@[i as int]);
        }
        if d != local {
            out.push(d);
        }
        i = i + 1;
    }
    proof {
        assert(ws.members@.subrange(0, ws.members@.len() as int) == ws.members@);
    }
    out
}

/// Whether device `d` of workspace `w` is known to be online, and how.
pub open spec fn presence_lookup(s: Seq<(WorkspaceId, DeviceId, bool)>, w: WorkspaceId, d: DeviceId) -> Option<bool> {
    if exists|i: int| 0 <= i < s.len() && s[i].0 == w && s[i].1 == d {
        let i = choose|i: int| 0 <= i < s.len() && s[i].0 == w && s[i].1 == d;
        Some(s[i].2)
    } else {
        None
    }
}

/// Whether each (workspace, member) pair occurs at most once.
pub open spec fn presence_keys_unique(s: Seq<(WorkspaceId, DeviceId, bool)>) -> bool {
    forall|i: int, j: int| 0 <= i < j < s.len() ==> !(s[i].0 == s[j].0 && s[i].1 == s[j].1)
}

proof fn lemma_presence_at(s: Seq<(WorkspaceId, DeviceId, bool)>, i: int)
    requires
        presence_keys_unique(s),
        0 <= i < s.len(),
    ensures
        presence_lookup(s, s[i].0, s[i].1) == Some(s[i].2),
{
    let j = choose|j: int| 0 <= j < s.len() && s[j].0 == s[i].0 && s[j].1 == s[i].1;
    assert(j == i);
}

proof fn lemma_presence_update(s: Seq<(WorkspaceId, DeviceId, bool)>, i: int, v: bool)
    requires
        presence_keys_unique(s),
        0 <= i < s.len(),
    ensures
        presence_keys_unique(s.update(i, (s[i].0, s[i].1, v))),
        forall|w: WorkspaceId, d: DeviceId| #[trigger] presence_lookup(s.update(i, (s[i].0, s[i].1, v)), w, d) == if w == s[i].0 && d == s[i].1 {
            Some(v)
        } else {
            presence_lookup(s, w, d)
        },
{
    let t = s.update(i, (s[i].0, s[i].1, v));
    assert forall|w: WorkspaceId, d: DeviceId| #[trigger] presence_lookup(t, w, d) == if w == s[i].0 && d == s[i].1 {
        Some(v)
    } else {
        presence_lookup(s, w, d)
    } by {
        if w == s[i].0 && d == s[i].1 {
            lemma_presence_at(t, i);
        } else {
            if exists|m: int| 0 <= m < s.len() && s[m].0 == w && s[m].1 == d {
                let m = choose|m: int| 0 <= m < s.len() && s[m].0 == w && s[m].1 == d;
                lemma_presence_at(s, m);
                lemma_presence_at(t, m);
            } else {
                assert forall|m: int| 0 <= m < t.len() implies !(t[m].0 == w && t[m].1 == d) by {
                    if m != i {
                        assert(t[m] == s[m]);
                    }
                }
            }
        }
    }
}

proof fn lemma_presence_push(s: Seq<(WorkspaceId, DeviceId, bool)>, w0: WorkspaceId, d0: DeviceId, v: bool)
    requires
        presence_keys_unique(s),
        presence_lookup(s, w0, d0) is None,
    ensures
        presence_keys_unique(s.push((w0, d0, v))),
        forall|w: WorkspaceId, d: DeviceId| #[trigger] presence_lookup(s.push((w0, d0, v)), w, d) == if w == w0 && d == d0 {
            Some(v)
        } else {
            presence_lookup(s, w, d)
        },
{
    let t = s.push((w0, d0, v));
    assert forall|i: int, j: int| 0 <= i < j < t.len() implies !(t[i].0 == t[j].0 && t[i].1 == t[j].1) by {
        if j == s.len() {
            if t[i].0 == w0 && t[i].1 == d0 {
                assert(s[i].0 == w0 && s[i].1 == d0);
            }
        }
    }
    assert forall|w: WorkspaceId, d: DeviceId| #[trigger] presence_lookup(t, w, d) == if w == w0 && d == d0 {
        Some(v)
    } else {
        presence_lookup(s, w, d)
    } by {
        if w == w0 && d == d0 {
            lemma_presence_at(t, s.len() as int);
        } else {
            if exists|m: int| 0 <= m < s.len() && s[m].0 == w && s[m].1 == d {
                let m = choose|m: int| 0 <= m < s.len() && s[m].0 == w && s[m].1 == d;
                lemma_presence_at(s, m);
                lemma_presence_at(t, m);
            } else {
                assert forall|m: int| 0 <= m < t.len() implies !(t[m].0 == w && t[m].1 == d) by {
                    if m < s.len() {
                        assert(t[m] == s[m]);
                    }
                }
            }
        }
    }
}

/// Last known presence of each workspace member.
pub struct PresenceTable {
    entries: Vec<(WorkspaceId, DeviceId, bool)>,
}

impl View for PresenceTable {
    type V = Map<(WorkspaceId, DeviceId), bool>;

    closed spec fn view(&self) -> Map<(WorkspaceId, DeviceId), bool> {
        Map::new(
            |k: (WorkspaceId, DeviceId)| presence_lookup(self.entries@, k.0, k.1) is Some,
            |k: (WorkspaceId, DeviceId)| presence_lookup(self.entries@, k.0, k.1)->0,
        )
    }
}

impl PresenceTable {
    /// Each (workspace, member) pair is recorded at most once.
    pub closed spec fn wf(&self) -> bool {
        presence_keys_unique(self.entries@)
    }

    /// Nothing known yet.
    pub fn new() -> (t: Self)
        ensures
            t.wf(),
            t@ == Map::<(WorkspaceId, DeviceId), bool>::empty(),
    {
        let t = PresenceTable { entries: Vec::new() };
        assert(t@ =~= Map::<(WorkspaceId, DeviceId), bool>::empty());
        t
    }

    /// Records the presence of member `d` of workspace `w`: this device is
    /// always online, any other member is online when its address resolved.
    /// A change (or a first observation) is announced; a repeat is not.
    pub fn observe_member(&mut self, w: WorkspaceId, d: DeviceId, local: DeviceId, resolved: bool) -> (r: Option<DomainEvent>)
        requires
            old(self).wf(),
        ensures
            final(self).wf(),
            final(self)@ == old(self)@.insert((w, d), d == local || resolved),
            (r is Some) == !(old(self)@.contains_key((w, d)) && old(self)@[(w, d)] == (d == local || resolved)),
            r is Some ==> r == Some(DomainEvent::WorkspaceMemberPresenceChanged {
                workspace_id: w,
                device_id: d,
                is_online: d == local || resolved,
            }),
    {
        let online = d == local || resolved;
        let ghost old_entries = self.entries@;
        let mut i: usize = 0;
        while i < self.entries.len()
            invariant
                i <= self.entries@.len(),
                self.entries@ == old_entries,
                old(self).entries@ == old_entries,
                online == (d == local || resolved),
                presence_keys_unique(old_entries),
                forall|k: int| 0 <= k < i ==> !(old_entries[k].0 == w && old_entries[k].1 == d),
            decreases self.entries@.len() - i,
        {
            if self.entries[i].0 == w && self.entries[i].1 == d {
                let prev = self.entries[i].2;
                proof {
                    lemma_presence_at(old_entries, i as int);
                    lemma_presence_update(old_entries, i as int, online);
                }
                self.entries.set(i, (w, d, online));
                proof {
                    assert(self.entries@ =~= old_entries.update(
                        i as int,
                        (old_entries[i as int].0, old_entries[i as int].1, online),
                    ));
                    assert(old(self)@.contains_key((w, d)));
                    assert(old(self)@[(w, d)] == prev);
                    assert(self@ =~= old(self)@.insert((w, d), online));
                }
                if prev == online {
                    return None;
                }
                return Some(DomainEvent::WorkspaceMemberPresenceChanged { workspace_id: w, device_id: d, is_online: online });
            }
            i = i + 1;
        }
        proof {
            lemma_presence_push(old_entries, w, d, online);
        }
        self.entries.push((w, d, online));
        proof {
            assert(self@ =~= old(self)@.insert((w, d), online));
        }
        Some(DomainEvent::WorkspaceMemberPresenceChanged { workspace_id: w, device_id: d, is_online: online })
    }
}

/// An invite in flight: on the sender side without snapshot, on the
/// receiver side with the owner's snapshot and public key.
#[derive(Debug)]
pub struct PendingInvite {
    pub invite_id: InviteId,
    pub workspace_id: WorkspaceId,
    pub target_device_id: DeviceId,
    pub sender_device_id: DeviceId,
    pub snapshot: Option<WorkspaceSnapshotPayload>,
    pub sender_pubkey: Option<[u8; 32]>,
}

/// Invites waiting for an answer, by invite id.
pub struct PendingInvites {
    by_id: HashMap<u128, PendingInvite>,
}

impl View for PendingInvites {
    type V = Map<u128, PendingInvite>;

    closed spec fn view(&self) -> Map<u128, PendingInvite> {
        self.by_id@
    }
}

proof fn lemma_present_covers(m: Map<u128, PendingInvite>, ids: Seq<u128>, x: u128)
    requires
        ids.contains(x),
        m.contains_key(x),
    ensures
        expired_present(m, ids).contains(x),
    decreases ids.len(),
{
    let p = ids.drop_last();
    let rest = expired_present(m, p);
    if ids.last() == x {
        if !rest.contains(x) {
            assert(rest.push(x)[rest.len() as int] == x);
        }
    } else {
        let j = choose|j: int| 0 <= j < ids.len() && ids[j] == x;
        assert(j < ids.len() - 1);
        assert(p[j] == x);
        lemma_present_covers(m, p, x);
        let k = choose|k: int| 0 <= k < rest.len() && rest[k] == x;
        if m.contains_key(ids.last()) && !rest.contains(ids.last()) {
            assert(rest.push(ids.last())[k] == x);
        }
    }
}

/// The invites in `m` among `ids`, in the order of `ids`, each once.
pub open spec fn expired_present(m: Map<u128, PendingInvite>, ids: Seq<u128>) -> Seq<u128>
    decreases ids.len(),
{
    if ids.len() == 0 {
        Seq::empty()
    } else {
        let rest = expired_present(m, ids.drop_last());
        if m.contains_key(ids.last()) && !rest.contains(ids.last()) {
            rest.push(ids.last())
        } else {
            rest
        }
    }
}

/// Whether an invite sent at `started_ms` has expired by `now_ms`: at
/// least `ttl_ms` went by.
pub open spec fn invite_expired(started_ms: u64, now_ms: u64, ttl_ms: u64) -> bool {
    now_ms >= started_ms && now_ms - started_ms >= ttl_ms
}

/// The ids, in order, of the invites among `started` (id, when it was
/// sent) that have expired by `now_ms`.
pub open spec fn expired_ids(started: Seq<(u128, u64)>, now_ms: u64, ttl_ms: u64) -> Seq<u128>
    decreases started.len(),
{
    if started.len() == 0 {
        Seq::empty()
    } else {
        let rest = expired_ids(started.drop_last(), now_ms, ttl_ms);
        if invite_expired(started.last().1, now_ms, ttl_ms) {
            rest.push(started.last().0)
        } else {
            rest
        }
    }
}

/// The invites (id, when it was sent) that have expired by `now_ms` with
/// a lifetime of `ttl_ms`, in order.
pub fn expired_invite_ids(started: &Vec<(u128, u64)>, now_ms: u64, ttl_ms: u64) -> (ids: Vec<u128>)
    ensures
        ids@ == expired_ids(started@, now_ms, ttl_ms),
{
    let mut ids: Vec<u128> = Vec::new();
    let mut i: usize = 0;
    while i < started.len()
        invariant
            i <= started@.len(),
            ids@ == expired_ids(started@.take(i as int), now_ms, ttl_ms),
        decreases started@.len() - i,
    {
        let (id, at) = started[i];
        proof {
            assert(started@.take(i + 1).drop_last() =~= started@.take(i as int));
        }
        if now_ms >= at && now_ms - at >= ttl_ms {
            ids.push(id);
        }
        i = i + 1;
    }
    proof {
        assert(started@.take(started@.len() as int) =~= started@);
    }
    ids
}

impl PendingInvites {
    /// Drops the invites found expired (`ids`) and announces each one that
    /// was pending with `WorkspaceInviteExpired`.
    pub fn remove_expired(&mut self, ids: &Vec<u128>) -> (events: Vec<DomainEvent>)
        ensures
            final(self)@ == old(self)@.remove_keys(ids@.to_set()),
            events@.len() == expired_present(old(self)@, ids@).len(),
            forall|k: int| 0 <= k < events@.len() ==> #[trigger] events@[k] == (DomainEvent::WorkspaceInviteExpired {
                invite_id: InviteId(expired_present(old(self)@, ids@)[k]),
            }),
    {
        let mut events: Vec<DomainEvent> = Vec::new();
        let mut i: usize = 0;
        while i < ids.len()
            invariant
                i <= ids@.len(),
                self@ == old(self)@.remove_keys(ids@.take(i as int).to_set()),
                events@.len() == expired_present(old(self)@, ids@.take(i as int)).len(),
                forall|k: int| 0 <= k < events@.len() ==> #[trigger] events@[k] == (DomainEvent::WorkspaceInviteExpired {
                    invite_id: InviteId(expired_present(old(self)@, ids@.take(i as int))[k]),
                }),
                forall|x: u128| expired_present(old(self)@, ids@.take(i as int)).contains(x) ==> ids@.take(i as int).contains(x),
            decreases ids@.len() - i,
        {
            let id = ids[i];
            let ghost prev = ids@.take(i as int);
            let ghost next = ids@.take(i + 1);
            proof {
                assert(next.drop_last() =~= prev);
                assert(next.last() == id);
                assert(next.to_set() =~= prev.to_set().insert(id));
            }
            let ghost before = self@;
            let present = self.take(id);
            match present {
                Some(_) => {
                    proof {
                        assert(before.contains_key(id));
                        assert(!prev.contains(id)) by {
                            if prev.contains(id) {
                                assert(prev.to_set().contains(id));
                                assert(!before.contains_key(id));
                            }
                        }
                        assert(!expired_present(old(self)@, prev).contains(id));
                        assert(old(self)@.contains_key(id));
                    }
                    events.push(DomainEvent::WorkspaceInviteExpired { invite_id: InviteId(id) });
                },
                None => {
                    proof {
                        assert(!before.contains_key(id));
                        if old(self)@.contains_key(id) && !expired_present(old(self)@, prev).contains(id) {
                            assert(prev.to_set().contains(id));
                            assert(prev.contains(id));
                            lemma_present_covers(old(self)@, prev, id);
                        }
                    }
                },
            }
            proof {
                assert(self@ =~= old(self)@.remove_keys(next.to_set()));
                assert forall|x: u128| expired_present(old(self)@, next).contains(x) implies next.contains(x) by {
                    if x == id {
                        assert(next[i as int] == id);
                    } else {
                        assert(expired_present(old(self)@, prev).contains(x));
                        assert(prev.contains(x));
                        let j = choose|j: int| 0 <= j < prev.len() && prev[j] == x;
                        assert(next[j] == prev[j]);
                    }
                }
            }
            i = i + 1;
        }
        proof {
            assert(ids@.take(ids@.len() as int) =~= ids@);
        }
        events
    }

    /// No invite pending.
    pub fn new() -> (p: Self)
        ensures
            p@ == Map::<u128, PendingInvite>::empty(),
    {
        PendingInvites { by_id: HashMap::new() }
    }

    /// Records an invite under its id (replacing any earlier one).
    pub fn insert(&mut self, invite: PendingInvite)
        ensures
            final(self)@ == old(self)@.insert(invite.invite_id.0, invite),
    {
        broadcast use vstd::std_specs::hash::group_hash_axioms;
        let id = invite.invite_id.0;
        self.by_id.insert(id, invite);
    }

    /// Removes and hands out the invite with this id, if any.
    pub fn take(&mut self, invite_id: u128) -> (r: Option<PendingInvite>)
        ensures
            final(self)@ == old(self)@.remove(invite_id),
            old(self)@.contains_key(invite_id) ==> r == Some(old(self)@[invite_id]),
            !old(self)@.contains_key(invite_id) ==> r is None,
    {
        broadcast use vstd::std_specs::hash::group_hash_axioms;
        self.by_id.remove(&invite_id)
    }

    /// Whether no invite is pending.
    pub fn is_empty(&self) -> (b: bool)
        ensures
            b == (self@.len() == 0),
    {
        broadcast use vstd::std_specs::hash::group_hash_axioms;
        proof {
            vstd::std_specs::hash::axiom_hashmap_view_finite_dom(self.by_id);
        }
        let b = self.by_id.is_empty();
        proof {
            if !b {
                let k = self.by_id@.dom().choose();
                assert(self.by_id@.dom().contains(k));
            }
        }
        b
    }

    /// Removes the invite being accepted and hands out what accepting needs.
    /// The invite goes whatever happens; an unknown invite, or one without
    /// the owner's snapshot or key, is refused with `InternalError`.
    pub fn take_for_accept(&mut self, invite_id: u128) -> (r: Result<PendingInvite, DomainError>)
        ensures
            final(self)@ == old(self)@.remove(invite_id),
            !old(self)@.contains_key(invite_id) ==> fails_with(r, DomainErrorCode::InternalError),
            old(self)@.contains_key(invite_id) ==> {
                let p = old(self)@[invite_id];
                &&& (p.snapshot is None || p.sender_pubkey is None) ==> fails_with(r, DomainErrorCode::InternalError)
                &&& (p.snapshot is Some && p.sender_pubkey is Some) ==> r == Ok::<PendingInvite, DomainError>(p)
            },
    {
        match self.take(invite_id) {
            None => Err(DomainError::new(DomainErrorCode::InternalError, "invite not found or already resolved")),
            Some(p) => {
                if p.snapshot.is_none() {
                    Err(DomainError::new(DomainErrorCode::InternalError, "snapshot not found in invite"))
                } else if p.sender_pubkey.is_none() {
                    Err(DomainError::new(DomainErrorCode::InternalError, "sender pubkey not found in invite"))
                } else {
                    Ok(p)
                }
            },
        }
    }
}

/// An invite received from a workspace owner: it is kept (with the owner's
/// snapshot and key) until answered, and announced with the owner's key
/// fingerprint.
pub fn incoming_invite(payload: WorkspaceInvitePayload, sender_fingerprint_hex: String) -> (r: (PendingInvite, DomainEvent))
    ensures
        r.0.invite_id == InviteId(payload.invite_id),
        r.0.workspace_id == WorkspaceId(payload.workspace_snapshot.id),
        r.0.target_device_id == DeviceId(payload.target_device_id),
        r.0.sender_device_id == DeviceId(payload.sender_device_id),
        r.0.snapshot == Some(payload.workspace_snapshot),
        r.0.sender_pubkey == Some(payload.sender_pubkey),
        r.1 == (DomainEvent::WorkspaceInviteIncoming {
            invite_id: InviteId(payload.invite_id),
            workspace_id: WorkspaceId(payload.workspace_snapshot.id),
            workspace_name: payload.workspace_snapshot.name,
            sender_device_id: DeviceId(payload.sender_device_id),
            sender_username: payload.sender_username,
            sender_fingerprint_hex: sender_fingerprint_hex,
        }),
{
    let workspace_name = payload.workspace_snapshot.name.clone();
    let event = DomainEvent::WorkspaceInviteIncoming {
        invite_id: InviteId(payload.invite_id),
        workspace_id: WorkspaceId(payload.workspace_snapshot.id),
        workspace_name,
        sender_device_id: DeviceId(payload.sender_device_id),
        sender_username: payload.sender_username,
        sender_fingerprint_hex,
    };
    let pending = PendingInvite {
        invite_id: InviteId(payload.invite_id),
        workspace_id: WorkspaceId(payload.workspace_snapshot.id),
        target_device_id: DeviceId(payload.target_device_id),
        sender_device_id: DeviceId(payload.sender_device_id),
        snapshot: Some(payload.workspace_snapshot),
        sender_pubkey: Some(payload.sender_pubkey),
    };
    (pending, event)
}

/// The username of the member with device `owner`, or `"Unknown"`.
pub open spec fn owner_username_spec(members: Seq<WorkspaceMember>, owner: DeviceId) -> Seq<char> {
    if has_member(members, owner) {
        let i = choose|i: int|
            0 <= i < members.len() && members[i].device_id == owner && forall|j: int|
                0 <= j < i ==> members[j].device_id != owner;
        members[i].username_cache@
    } else {
        "Unknown"@
    }
}

/// The join time of a member as a snapshot carries it: RFC 3339 text, or
/// the empty text for a second the calendar cannot hold.
pub open spec fn joined_text(ts: i64) -> Seq<char> {
    if min_unix_timestamp() <= ts <= max_unix_timestamp() {
        rfc3339_text(ts)
    } else {
        Seq::empty()
    }
}

/// Whether a snapshot entry carries a member's device, key, username and
/// join time.
pub open spec fn member_snapshot_matches(p: MemberSnapshotPayload, m: WorkspaceMember) -> bool {
    &&& p.device_id == m.device_id.0
    &&& p.public_key == m.public_key
    &&& p.username@ == m.username_cache@
    &&& p.joined_at_rfc3339@ == joined_text(m.joined_at_unix)
}

/// Whether `p` is the snapshot of `ws` that goes out: its id, name, owner,
/// version, the owner's username (or `"Unknown"`) and, in order, each
/// member's device, key, username and join time.
pub open spec fn snapshot_of(p: WorkspaceSnapshotPayload, ws: Workspace) -> bool {
    &&& p.id == ws.id.0
    &&& p.name@ == ws.name@
    &&& p.owner_device_id == ws.owner_device_id.0
    &&& p.version == ws.version
    &&& p.owner_username@ == owner_username_spec(ws.members@, ws.owner_device_id)
    &&& p.members@.len() == ws.members@.len()
    &&& forall|i: int| 0 <= i < ws.members@.len() ==> member_snapshot_matches(#[trigger] p.members@[i], ws.members@[i])
}

/// The snapshot of a workspace that goes out in invites and syncs: its
/// id, name, owner, version, the owner's username (or `"Unknown"`) and each
/// member's device, key, username and join time (as RFC 3339 text).
pub fn build_snapshot_payload(ws: &Workspace) -> (p: WorkspaceSnapshotPayload)
    ensures
        snapshot_of(p, *ws),
{
    let mut members: Vec<MemberSnapshotPayload> = Vec::new();
    let mut i: usize = 0;
    while i < ws.members.len()
        invariant
            i <= ws.members@.len(),
            members@.len() == i,
            forall|k: int| 0 <= k < i ==> member_snapshot_matches(#[trigger] members@[k], ws.members@[k]),
        decreases ws.members@.len() - i,
    {
        let m = &ws.members[i];
        let joined = match offset_datetime_from_unix(m.joined_at_unix) {
            Some(t) => format_rfc3339(&t),
            None => String::new(),
        };
        members.push(MemberSnapshotPayload {
            device_id: m.device_id.0,
            public_key: m.public_key,
            username: m.username_cache.clone(),
            joined_at_rfc3339: joined,
        });
        i = i + 1;
    }
    let owner_username = match ws.find_member(ws.owner_device_id) {
        Some(k) => {
            proof {
                let j = choose|j: int|
                    0 <= j < ws.members@.len() && ws.members@[j].device_id == ws.owner_device_id && forall|l: int|
                        0 <= l < j ==> ws.members@[l].device_id != ws.owner_device_id;
                if j < k {
                } else if j > k {
                    assert(ws.members@[k as int].device_id == ws.owner_device_id);
                }
                assert(j == k);
            }
            ws.members[k].username_cache.clone()
        },
        None => "Unknown".to_owned(),
    };
    WorkspaceSnapshotPayload {
        id: ws.id.0,
        name: ws.name.clone(),
        owner_device_id: ws.owner_device_id.0,
        owner_username,
        version: ws.version,
        members,
    }
}

/// The invite this device sends for one of its workspaces: the pending
/// record it keeps (no snapshot on the sender side) and the message.
pub fn outgoing_invite(
    invite_id: u128,
    ws: &Workspace,
    target_device: u128,
    local_device: u128,
    local_username: String,
    local_pubkey: [u8; 32],
) -> (r: (PendingInvite, WorkspaceInvitePayload))
    ensures
        r.0.invite_id == InviteId(invite_id),
        r.0.workspace_id == ws.id,
        r.0.target_device_id == DeviceId(target_device),
        r.0.sender_device_id == DeviceId(local_device),
        r.0.snapshot is None,
        r.0.sender_pubkey is None,
        r.1.invite_id == invite_id,
        snapshot_of(r.1.workspace_snapshot, *ws),
        r.1.sender_device_id == local_device,
        r.1.sender_username@ == local_username@,
        r.1.sender_pubkey == local_pubkey,
        r.1.target_device_id == target_device,
{
    let pending = PendingInvite {
        invite_id: InviteId(invite_id),
        workspace_id: ws.id,
        target_device_id: DeviceId(target_device),
        sender_device_id: DeviceId(local_device),
        snapshot: None,
        sender_pubkey: None,
    };
    let payload = WorkspaceInvitePayload {
        invite_id,
        workspace_snapshot: build_snapshot_payload(ws),
        sender_device_id: local_device,
        sender_username: local_username,
        sender_pubkey: local_pubkey,
        target_device_id: target_device,
    };
    (pending, payload)
}

} // verus!
