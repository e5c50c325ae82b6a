//! Workspaces: a named group of devices owned by one of them
//! (`Original`) and mirrored on the others (`Mirror`). Versions resolve
//! concurrent edits last-writer-wins; the shared cursor moves by sequence
//! number.

use vstd::prelude::*;
use crate::ids::{DeviceId, PeerId, WorkspaceId};
use crate::layout::{keys_unique, set_entry, MonitorLayout, WorkspaceLayout};

verus! {

/// A device that belongs to a workspace.
#[derive(Clone, Debug)]
pub struct WorkspaceMember {
    pub device_id: DeviceId,
    pub public_key: [u8; 32],
    pub username_cache: String,
    /// When the member joined, in seconds since the Unix epoch.
    pub joined_at_unix: i64,
}

/// Whether this device owns the workspace or mirrors someone else's.
#[derive(Clone, Debug)]
pub enum OwnershipMode {
    Original,
    Mirror {
        owner_username: String,
        /// Last time the owner was heard from, in seconds since the Unix epoch.
        owner_last_seen_unix: i64,
        /// Set once the owner deleted the workspace.
        is_orphan: bool,
    },
}

impl OwnershipMode {
    /// Whether this is a mirror.
    pub fn is_mirror(&self) -> (b: bool)
        ensures
            b == (*self is Mirror),
    {
        match self {
            OwnershipMode::Original => false,
            OwnershipMode::Mirror { .. } => true,
        }
    }
}

/// The cursor shared by all members of the connected workspace.
#[derive(Clone, Copy, Debug, PartialEq, Eq, Structural)]
pub struct GlobalCursor {
    pub x: i32,
    pub y: i32,
    pub active_device_id: Option<DeviceId>,
    pub monotonic_seq: u64,
}

/// A cursor position announced by a member.
#[derive(Clone, Copy, Debug, PartialEq, Eq, Structural)]
pub struct GlobalCursorUpdate {
    pub x: i32,
    pub y: i32,
    pub active_device_id: DeviceId,
    pub monotonic_seq: u64,
}

/// A workspace as this device stores it.
#[derive(Clone, Debug)]
pub struct Workspace {
    pub id: WorkspaceId,
    pub name: String,
    pub owner_device_id: DeviceId,
    pub version: u64,
    pub ownership_mode: OwnershipMode,
    pub members: Vec<WorkspaceMember>,
    pub layout: WorkspaceLayout,
    pub global_cursor: GlobalCursor,
}

/// The owner's description of a workspace, as received in an invite or a sync.
#[derive(Clone, Debug)]
pub struct WorkspaceSnapshot {
    pub id: WorkspaceId,
    pub name: String,
    pub owner_device_id: DeviceId,
    pub version: u64,
    pub members: Vec<WorkspaceMember>,
}

/// Why a workspace rule refused a change.
#[derive(Clone, Copy, Debug, PartialEq, Eq, Structural)]
pub enum WorkspaceRuleError {
    EmptyName,
    MirrorImmutable,
    MemberExists,
    MemberNotFound,
    CannotRemoveOwner,
    NotMirror,
}

/// What a last-writer-wins sync did.
#[derive(Clone, Copy, Debug, PartialEq, Eq, Structural)]
pub enum SyncOutcome {
    Applied,
    Discarded { local_version: u64, incoming_version: u64 },
}

/// The version that follows `v` (it stays at `u64::MAX`).
pub open spec fn next_version(v: u64) -> u64 {
    if v == u64::MAX { v } else { (v + 1) as u64 }
}

/// Whether a member with device `d` occurs.
pub open spec fn has_member(members: Seq<WorkspaceMember>, d: DeviceId) -> bool {
    exists|i: int| 0 <= i < members.len() && members[i].device_id == d
}

/// The version a workspace starts at.
pub open spec fn initial_version() -> u64 {
    1
}

/// The cursor of a new workspace.
pub open spec fn initial_cursor() -> GlobalCursor {
    GlobalCursor { x: 0, y: 0, active_device_id: None, monotonic_seq: 0 }
}

/// `ws` with its name and version replaced.
pub open spec fn with_name_version(ws: Workspace, name: String, version: u64) -> Workspace {
    Workspace { name: name, version: version, ..ws }
}

/// `ws` with its cursor replaced.
pub open spec fn with_cursor(ws: Workspace, c: GlobalCursor) -> Workspace {
    Workspace { global_cursor: c, ..ws }
}

/// `ws` with its ownership mode replaced.
pub open spec fn with_ownership(ws: Workspace, m: OwnershipMode) -> Workspace {
    Workspace { ownership_mode: m, ..ws }
}

/// `ws` after taking the name, owner, version and members of a snapshot.
pub open spec fn with_snapshot(ws: Workspace, s: WorkspaceSnapshot) -> Workspace {
    Workspace {
        name: s.name,
        owner_device_id: s.owner_device_id,
        version: s.version,
        members: s.members,
        ..ws
    }
}

/// The cursor an accepted update sets.
pub open spec fn cursor_of_update(u: GlobalCursorUpdate) -> GlobalCursor {
    GlobalCursor {
        x: u.x,
        y: u.y,
        active_device_id: Some(u.active_device_id),
        monotonic_seq: u.monotonic_seq,
    }
}

/// The mode after marking a mirror orphan (an original is left as it is).
pub open spec fn orphaned(m: OwnershipMode) -> OwnershipMode {
    match m {
        OwnershipMode::Mirror { owner_username, owner_last_seen_unix, .. } => OwnershipMode::Mirror {
            owner_username,
            owner_last_seen_unix,
            is_orphan: true,
        },
        OwnershipMode::Original => OwnershipMode::Original,
    }
}

/// The mode after hearing from the owner at `now` (an original is left as it is).
pub open spec fn owner_seen_at(m: OwnershipMode, now: i64) -> OwnershipMode {
    match m {
        OwnershipMode::Mirror { owner_username, is_orphan, .. } => OwnershipMode::Mirror {
            owner_username,
            owner_last_seen_unix: now,
            is_orphan,
        },
        OwnershipMode::Original => OwnershipMode::Original,
    }
}

/// What renaming did: a mirror or an empty name leaves the workspace as it was; otherwise the name changes and the version moves on.
pub open spec fn rename_post(old_ws: Workspace, new_ws: Workspace, new_name: String, r: Result<(), WorkspaceRuleError>) -> bool {
    &&& (old_ws.ownership_mode is Mirror ==> r == Err::<(), WorkspaceRuleError>(
                WorkspaceRuleError::MirrorImmutable,
            ) && new_ws == old_ws)
    &&& (old_ws.ownership_mode is Original && new_name@.len() == 0 ==> r == Err::<
                (),
                WorkspaceRuleError,
            >(WorkspaceRuleError::EmptyName) && new_ws == old_ws)
    &&& (old_ws.ownership_mode is Original && new_name@.len() > 0 ==> {
                &&& r is Ok
                &&& new_ws == with_name_version(
                    old_ws,
                    new_name,
                    next_version(old_ws.version),
                )
            })
}

/// What adding a member did: refused on a mirror or for a device already present; otherwise the member is appended and the version moves on.
pub open spec fn add_member_post(old_ws: Workspace, new_ws: Workspace, member: WorkspaceMember, r: Result<(), WorkspaceRuleError>) -> bool {
    &&& (old_ws.ownership_mode is Mirror ==> r == Err::<(), WorkspaceRuleError>(
                WorkspaceRuleError::MirrorImmutable,
            ) && new_ws == old_ws)
    &&& (old_ws.ownership_mode is Original && has_member(
                old_ws.members@,
                member.device_id,
            ) ==> r == Err::<(), WorkspaceRuleError>(WorkspaceRuleError::MemberExists) && new_ws == old_ws)
    &&& (old_ws.ownership_mode is Original && !has_member(
                old_ws.members@,
                member.device_id,
            ) ==> {
                &&& r is Ok
                &&& new_ws.members@ == old_ws.members@.push(member)
                &&& new_ws.version == next_version(old_ws.version)
                &&& new_ws.id == old_ws.id
                &&& new_ws.name == old_ws.name
                &&& new_ws.owner_device_id == old_ws.owner_device_id
                &&& new_ws.ownership_mode == old_ws.ownership_mode
                &&& new_ws.layout == old_ws.layout
                &&& new_ws.global_cursor == old_ws.global_cursor
            })
}

/// What removing a member did: refused on a mirror, for the owner, or for an absent device; otherwise the first entry of that device goes and the version moves on.
pub open spec fn remove_member_post(old_ws: Workspace, new_ws: Workspace, d: DeviceId, r: Result<(), WorkspaceRuleError>) -> bool {
    &&& (old_ws.ownership_mode is Mirror ==> r == Err::<(), WorkspaceRuleError>(
                WorkspaceRuleError::MirrorImmutable,
            ) && new_ws == old_ws)
    &&& (old_ws.ownership_mode is Original && d == old_ws.owner_device_id ==> r == Err::<
                (),
                WorkspaceRuleError,
            >(WorkspaceRuleError::CannotRemoveOwner) && new_ws == old_ws)
    &&& (old_ws.ownership_mode is Original && d != old_ws.owner_device_id && !has_member(
                old_ws.members@,
                d,
            ) ==> r == Err::<(), WorkspaceRuleError>(WorkspaceRuleError::MemberNotFound) && new_ws == old_ws)
    &&& (old_ws.ownership_mode is Original && d != old_ws.owner_device_id && has_member(
                old_ws.members@,
                d,
            ) ==> {
                &&& r is Ok
                &&& exists|i: int|
                    0 <= i < old_ws.members@.len() && old_ws.members@[i].device_id == d
                        && (forall|j: int|
                        0 <= j < i ==> old_ws.members@[j].device_id != d)
                        && new_ws.members@ == old_ws.members@.remove(i)
                &&& new_ws.version == next_version(old_ws.version)
                &&& new_ws.id == old_ws.id
                &&& new_ws.name == old_ws.name
                &&& new_ws.owner_device_id == old_ws.owner_device_id
                &&& new_ws.ownership_mode == old_ws.ownership_mode
                &&& new_ws.layout == old_ws.layout
                &&& new_ws.global_cursor == old_ws.global_cursor
            })
}

/// What a last-writer-wins sync did: a strictly higher incoming version replaces name, owner, version and members; any other leaves everything.
pub open spec fn apply_sync_post(old_ws: Workspace, new_ws: Workspace, snapshot: WorkspaceSnapshot, r: SyncOutcome) -> bool {
    &&& (snapshot.version > old_ws.version ==> {
                &&& r == SyncOutcome::Applied
                &&& new_ws == with_snapshot(old_ws, snapshot)
            })
    &&& (snapshot.version <= old_ws.version ==> {
                &&& r == (SyncOutcome::Discarded {
                    local_version: old_ws.version,
                    incoming_version: snapshot.version,
                })
                &&& new_ws == old_ws
            })
}

/// What a cursor update did: taken exactly when its sequence number is strictly higher than the current one.
pub open spec fn apply_cursor_post(old_ws: Workspace, new_ws: Workspace, u: GlobalCursorUpdate, accepted: bool) -> bool {
    &&& (accepted == (u.monotonic_seq > old_ws.global_cursor.monotonic_seq))
    &&& (accepted ==> new_ws == with_cursor(old_ws, cursor_of_update(u)))
    &&& (!accepted ==> new_ws == old_ws)
}

/// What marking orphan did: refused on an original; on a mirror only the orphan flag changes.
pub open spec fn mark_orphan_post(old_ws: Workspace, new_ws: Workspace, r: Result<(), WorkspaceRuleError>) -> bool {
    &&& (old_ws.ownership_mode is Original ==> r == Err::<(), WorkspaceRuleError>(
                WorkspaceRuleError::NotMirror,
            ) && new_ws == old_ws)
    &&& (old_ws.ownership_mode is Mirror ==> r is Ok && new_ws == with_ownership(
                old_ws,
                orphaned(old_ws.ownership_mode),
            ))
}

/// What storing a layout did: refused on a mirror; otherwise the device's
/// entry is set and the version moves on.
pub open spec fn update_layout_post(old_ws: Workspace, new_ws: Workspace, d: DeviceId, layout: MonitorLayout, r: Result<(), WorkspaceRuleError>) -> bool {
    &&& (old_ws.ownership_mode is Mirror ==> r == Err::<(), WorkspaceRuleError>(WorkspaceRuleError::MirrorImmutable) && new_ws == old_ws)
    &&& (old_ws.ownership_mode is Original ==> {
        &&& r is Ok
        &&& new_ws.layout@ == set_entry(old_ws.layout@, d, layout@)
        &&& new_ws.version == next_version(old_ws.version)
        &&& new_ws.id == old_ws.id
        &&& new_ws.name == old_ws.name
        &&& new_ws.owner_device_id == old_ws.owner_device_id
        &&& new_ws.ownership_mode == old_ws.ownership_mode
        &&& new_ws.members == old_ws.members
        &&& new_ws.global_cursor == old_ws.global_cursor
    })
}

fn bump_version(v: u64) -> (r: u64)
    ensures
        r == next_version(v),
{
    if v == u64::MAX { v } else { v + 1 }
}

impl Workspace {
    /// Well-formedness: the layout holds each device at most once.
    pub open spec fn wf(&self) -> bool {
        keys_unique(self.layout@)
    }

    /// Index of the member with device `d`, if any.
    pub fn find_member(&self, d: DeviceId) -> (r: Option<usize>)
        ensures
            match r {
                Some(i) => {
                    &&& i < self.members@.len()
                    &&& self.members@[i as int].device_id == d
                    &&& forall|j: int| 0 <= j < i ==> self.members@[j].device_id != d
                },
                None => !has_member(self.members@, d),
            },
    {
        let mut i: usize = 0;
        while i < self.members.len()
            invariant
                i <= self.members@.len(),
                forall|j: int| 0 <= j < i ==> self.members@[j].device_id != d,
            decreases self.members@.len() - i,
        {
            if self.members[i].device_id == d {
                return Some(i);
            }
            i = i + 1;
        }
        None
    }

    /// A new workspace owned by this device, with `owner` as its only member.
    pub fn create_original(id: WorkspaceId, name: String, owner: WorkspaceMember) -> (r: Result<
        Workspace,
        WorkspaceRuleError,
    >)
        ensures
            name@.len() == 0 ==> r == Err::<Workspace, WorkspaceRuleError>(
                WorkspaceRuleError::EmptyName,
            ),
            name@.len() > 0 ==> (r matches Ok(ws) && {
                &&& ws.id == id
                &&& ws.name@ == name@
                &&& ws.owner_device_id == owner.device_id
                &&& ws.version == initial_version()
                &&& ws.ownership_mode is Original
                &&& ws.members@ == seq![owner]
                &&& ws.layout@.len() == 0
                &&& ws.global_cursor == initial_cursor()
                &&& ws.wf()
            }),
    {
        if name.as_str().is_empty() {
            return Err(WorkspaceRuleError::EmptyName);
        }
        let owner_device_id = owner.device_id;
        let mut members: Vec<WorkspaceMember> = Vec::new();
        members.push(owner);
        Ok(Workspace {
            id,
            name,
            owner_device_id,
            version: 1,
            ownership_mode: OwnershipMode::Original,
            members,
            layout: WorkspaceLayout::empty(),
            global_cursor: GlobalCursor { x: 0, y: 0, active_device_id: None, monotonic_seq: 0 },
        })
    }

    /// A local mirror of someone else's workspace, built from its snapshot.
    pub fn create_mirror(snapshot: WorkspaceSnapshot, owner_username: String, now_unix: i64) -> (ws:
        Workspace)
        ensures
            ws.id == snapshot.id,
            ws.name@ == snapshot.name@,
            ws.owner_device_id == snapshot.owner_device_id,
            ws.version == snapshot.version,
            ws.members@ == snapshot.members@,
            ws.ownership_mode == (OwnershipMode::Mirror {
                owner_username: owner_username,
                owner_last_seen_unix: now_unix,
                is_orphan: false,
            }),
            ws.layout@.len() == 0,
            ws.global_cursor == initial_cursor(),
            ws.wf(),
    {
        Workspace {
            id: snapshot.id,
            name: snapshot.name,
            owner_device_id: snapshot.owner_device_id,
            version: snapshot.version,
            ownership_mode: OwnershipMode::Mirror {
                owner_username,
                owner_last_seen_unix: now_unix,
                is_orphan: false,
            },
            members: snapshot.members,
            layout: WorkspaceLayout::empty(),
            global_cursor: GlobalCursor { x: 0, y: 0, active_device_id: None, monotonic_seq: 0 },
        }
    }

    /// Renames an original; the version moves on.
    pub fn rename(&mut self, new_name: String) -> (r: Result<(), WorkspaceRuleError>)
        ensures
            rename_post(*old(self), *final(self), new_name, r),

    {
        if self.ownership_mode.is_mirror() {
            return Err(WorkspaceRuleError::MirrorImmutable);
        }
        if new_name.as_str().is_empty() {
            return Err(WorkspaceRuleError::EmptyName);
        }
        self.name = new_name;
        self.version = bump_version(self.version);
        Ok(())
    }

    /// Adds a member to an original; the version moves on.
    pub fn add_member(&mut self, member: WorkspaceMember) -> (r: Result<(), WorkspaceRuleError>)
        ensures
            add_member_post(*old(self), *final(self), member, r),

    {
        if self.ownership_mode.is_mirror() {
            return Err(WorkspaceRuleError::MirrorImmutable);
        }
        if self.find_member(member.device_id).is_some() {
            return Err(WorkspaceRuleError::MemberExists);
        }
        self.members.push(member);
        self.version = bump_version(self.version);
        Ok(())
    }

    /// Removes a (non-owner) member from an original; the version moves on.
    pub fn remove_member(&mut self, d: DeviceId) -> (r: Result<(), WorkspaceRuleError>)
        ensures
            remove_member_post(*old(self), *final(self), d, r),

    {
        if self.ownership_mode.is_mirror() {
            return Err(WorkspaceRuleError::MirrorImmutable);
        }
        if d == self.owner_device_id {
            return Err(WorkspaceRuleError::CannotRemoveOwner);
        }
        match self.find_member(d) {
            None => Err(WorkspaceRuleError::MemberNotFound),
            Some(i) => {
                self.members.remove(i);
                self.version = bump_version(self.version);
                Ok(())
            },
        }
    }

    /// Stores the layout of device `d` in an original; the version moves on.
    pub fn update_layout(&mut self, d: DeviceId, layout: MonitorLayout) -> (r: Result<
        (),
        WorkspaceRuleError,
    >)
        requires
            old(self).wf(),
        ensures
            final(self).wf(),
            update_layout_post(*old(self), *final(self), d, layout, r),

    {
        if self.ownership_mode.is_mirror() {
            return Err(WorkspaceRuleError::MirrorImmutable);
        }
        self.layout.set(d, layout);
        self.version = bump_version(self.version);
        Ok(())
    }

    /// Last-writer-wins: takes the snapshot's name, owner, version and
    /// members when its version is strictly higher; keeps everything otherwise.
    pub fn apply_sync(&mut self, snapshot: WorkspaceSnapshot) -> (r: SyncOutcome)
        ensures
            apply_sync_post(*old(self), *final(self), snapshot, r),

    {
        if snapshot.version > self.version {
            self.name = snapshot.name;
            self.owner_device_id = snapshot.owner_device_id;
            self.version = snapshot.version;
            self.members = snapshot.members;
            SyncOutcome::Applied
        } else {
            SyncOutcome::Discarded {
                local_version: self.version,
                incoming_version: snapshot.version,
            }
        }
    }

    /// Takes a cursor update whose sequence number is strictly higher than
    /// the current one; refuses (and keeps the cursor) otherwise.
    pub fn apply_cursor(&mut self, u: GlobalCursorUpdate) -> (accepted: bool)
        ensures
            apply_cursor_post(*old(self), *final(self), u, accepted),

    {
        if u.monotonic_seq > self.global_cursor.monotonic_seq {
            self.global_cursor = GlobalCursor {
                x: u.x,
                y: u.y,
                active_device_id: Some(u.active_device_id),
                monotonic_seq: u.monotonic_seq,
            };
            true
        } else {
            false
        }
    }

    /// Moves the cursor locally: the sequence number moves on (staying at
    /// `u64::MAX`) and `device` becomes the active one.
    pub fn update_local_cursor(&mut self, x: i32, y: i32, device: DeviceId)
        ensures
            *final(self) == with_cursor(
                *old(self),
                cursor_of_update(
                    GlobalCursorUpdate {
                        x,
                        y,
                        active_device_id: device,
                        monotonic_seq: next_version(old(self).global_cursor.monotonic_seq),
                    },
                ),
            ),
    {
        let seq = bump_version(self.global_cursor.monotonic_seq);
        self.global_cursor = GlobalCursor { x, y, active_device_id: Some(device), monotonic_seq: seq };
    }

    /// Marks a mirror whose owner deleted the workspace.
    pub fn mark_orphan(&mut self) -> (r: Result<(), WorkspaceRuleError>)
        ensures
            mark_orphan_post(*old(self), *final(self), r),

    {
        match &mut self.ownership_mode {
            OwnershipMode::Original => Err(WorkspaceRuleError::NotMirror),
            OwnershipMode::Mirror { is_orphan, .. } => {
                *is_orphan = true;
                Ok(())
            },
        }
    }

    /// Records that the owner of a mirror was just heard from.
    pub fn touch_owner_seen(&mut self, now_unix: i64)
        ensures
            old(self).ownership_mode is Original ==> *final(self) == *old(self),
            old(self).ownership_mode is Mirror ==> *final(self) == with_ownership(
                *old(self),
                owner_seen_at(old(self).ownership_mode, now_unix),
            ),
    {
        match &mut self.ownership_mode {
            OwnershipMode::Original => {},
            OwnershipMode::Mirror { owner_last_seen_unix, .. } => {
                *owner_last_seen_unix = now_unix;
            },
        }
    }
}

/// Last-writer-wins does not depend on arrival order: two syncs with
/// different versions, applied in either order, leave the same workspace.
pub proof fn lww_sync_order_independent(
    w0: Workspace,
    a: WorkspaceSnapshot,
    b: WorkspaceSnapshot,
    w_ab1: Workspace,
    w_ab: Workspace,
    w_ba1: Workspace,
    w_ba: Workspace,
    r1: SyncOutcome,
    r2: SyncOutcome,
    r3: SyncOutcome,
    r4: SyncOutcome,
)
    requires
        a.version != b.version,
        apply_sync_post(w0, w_ab1, a, r1),
        apply_sync_post(w_ab1, w_ab, b, r2),
        apply_sync_post(w0, w_ba1, b, r3),
        apply_sync_post(w_ba1, w_ba, a, r4),
    ensures
        w_ab == w_ba,
{
}

/// The shared cursor's sequence number never goes back, and a refused
/// update leaves the cursor as it was.
pub proof fn cursor_seq_monotonic(w0: Workspace, w1: Workspace, u: GlobalCursorUpdate, accepted: bool)
    requires
        apply_cursor_post(w0, w1, u, accepted),
    ensures
        w1.global_cursor.monotonic_seq >= w0.global_cursor.monotonic_seq,
        !accepted ==> w1.global_cursor == w0.global_cursor,
{
}

} // verus!
