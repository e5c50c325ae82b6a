//! Where local input goes: the focus state machine behind edge switching,
//! hotkeys, the estimate of the cursor on the remote screen, and the
//! session cursor shared with the peer (handoff and takeover).
//!
//! Screen geometry (which edge was hit, where the cursor enters the remote
//! screen, how far inland it is) is answered by the monitor layout; the
//! steps here take those answers as arguments and decide the rest.

use vstd::prelude::*;
use crate::error::{DomainError, DomainErrorCode};
use crate::events::{DomainEvent, FocusTarget, HotkeyAction};
use crate::ids::{DeviceId, PeerId};
use crate::mouse_coalesce::{abs_int, MouseCoalescer, manhattan_sat};

verus! {

/// Manhattan jump that tells a second physical mouse took over locally.
pub const SESSION_HANDOFF_MANHATTAN_PX: i32 = 80;

/// Movement that takes control back while the peer drives this screen.
pub const SESSION_TAKEOVER_MANHATTAN_PX: i32 = 10;

/// After crossing to the remote screen, the way back stays closed this long.
pub const REMOTE_SWITCH_GRACE_MS: u64 = 500;

/// Width used for the safe point when the clip width does not fit an `i32`.
pub const FALLBACK_CLIP_WIDTH: i32 = 1920;

/// Height used for the safe point when the clip height does not fit an `i32`.
pub const FALLBACK_CLIP_HEIGHT: i32 = 1080;

/// The focus and whether it is locked where it is.
#[derive(Clone, Copy, Debug, PartialEq, Eq, Structural)]
pub struct FocusState {
    pub target: FocusTarget,
    pub lock_mode: bool,
}

/// A change of focus.
#[derive(Clone, Copy, Debug, PartialEq, Eq, Structural)]
pub struct FocusTransition {
    pub from: FocusTarget,
    pub to: FocusTarget,
}

impl FocusState {
    /// Local focus, not locked.
    pub fn new() -> (f: Self)
        ensures
            f == (FocusState { target: FocusTarget::Local, lock_mode: false }),
    {
        FocusState { target: FocusTarget::Local, lock_mode: false }
    }

    /// Moves the focus to `to`; the lock is left as it is.
    pub fn apply_focus_target(&mut self, to: FocusTarget) -> (t: FocusTransition)
        ensures
            *final(self) == (FocusState { target: to, lock_mode: old(self).lock_mode }),
            t == (FocusTransition { from: old(self).target, to }),
    {
        let from = self.target;
        self.target = to;
        FocusTransition { from, to }
    }

    /// Flips the lock and tells whether it is now on.
    pub fn toggle_lock_mode(&mut self) -> (locked: bool)
        ensures
            *final(self) == (FocusState { target: old(self).target, lock_mode: !old(self).lock_mode }),
            locked == final(self).lock_mode,
    {
        self.lock_mode = !self.lock_mode;
        self.lock_mode
    }
}

/// The events announcing a focus change: the switch itself, and whether
/// local input is now blocked (it is while a remote peer has the focus).
pub open spec fn focus_switch_events(from: FocusTarget, to: FocusTarget) -> Seq<DomainEvent> {
    seq![
        DomainEvent::FocusSwitched { from, to },
        DomainEvent::InputBlocked {
            blocked: to is Remote,
            peer_id: match to {
                FocusTarget::Remote(p) => Some(p),
                FocusTarget::Local => None,
            },
        },
    ]
}

fn focus_events(from: FocusTarget, to: FocusTarget) -> (v: Vec<DomainEvent>)
    ensures
        v@ == focus_switch_events(from, to),
{
    let peer_id = match to {
        FocusTarget::Remote(p) => Some(p),
        FocusTarget::Local => None,
    };
    let blocked = match to {
        FocusTarget::Remote(_) => true,
        FocusTarget::Local => false,
    };
    let mut v: Vec<DomainEvent> = Vec::new();
    v.push(DomainEvent::FocusSwitched { from, to });
    v.push(DomainEvent::InputBlocked { blocked, peer_id });
    proof {
        assert(v@ =~= focus_switch_events(from, to));
    }
    v
}

/// `a / b` rounded toward zero, as the machine's signed division does.
pub open spec fn trunc_div(a: int, b: int) -> int {
    if a >= 0 {
        a / b
    } else {
        -((-a) / b)
    }
}

/// A mouse delta scaled by `scale_q8 / 256`, rounded toward zero and
/// truncated to 32 bits.
pub open spec fn scaled_delta(d: i32, scale_q8: i32) -> i32 {
    trunc_div(d as int * scale_q8 as int, 256) as i32
}

/// Scales a mouse delta by the remote sensitivity `scale_q8 / 256`.
pub fn scale_mouse_delta(dx: i32, dy: i32, scale_q8: i32) -> (r: (i32, i32))
    ensures
        r == (scaled_delta(dx, scale_q8), scaled_delta(dy, scale_q8)),
{
    (scale_one(dx, scale_q8), scale_one(dy, scale_q8))
}

fn scale_one(d: i32, scale_q8: i32) -> (r: i32)
    ensures
        r == scaled_delta(d, scale_q8),
{
    assert(-0x4000_0000_0000_0000 <= d as int * scale_q8 as int <= 0x4000_0000_0000_0000) by (nonlinear_arith);
    let p: i64 = d as i64 * scale_q8 as i64;
    let q: i64 = if p >= 0 {
        p / 256
    } else {
        -((-p) / 256)
    };
    q as i32
}

/// The pending movement to send, scaled: taken from the coalescer once it
/// reaches `min_manhattan`, and dropped when it scales to nothing.
pub fn take_mouse_delta(c: &mut MouseCoalescer, min_manhattan: i32, scale_q8: i32) -> (r: Option<(i32, i32)>)
    requires
        old(c)@.0 != i32::MIN,
        old(c)@.1 != i32::MIN,
    ensures
        manhattan_sat(old(c)@.0, old(c)@.1) < min_manhattan ==> r is None && final(c)@ == old(c)@,
        manhattan_sat(old(c)@.0, old(c)@.1) >= min_manhattan ==> final(c)@ == (0i32, 0i32) && {
            let s = (scaled_delta(old(c)@.0, scale_q8), scaled_delta(old(c)@.1, scale_q8));
            if s.0 == 0 && s.1 == 0 {
                r is None
            } else {
                r == Some(s)
            }
        },
{
    match c.take_if_significant(min_manhattan) {
        None => None,
        Some((dx, dy)) => {
            let (sx, sy) = scale_mouse_delta(dx, dy, scale_q8);
            if sx == 0 && sy == 0 {
                None
            } else {
                Some((sx, sy))
            }
        },
    }
}

/// `|sx - x| + |sy - y|`, saturated at `i32::MAX`.
pub open spec fn cursor_jump(sx: i32, sy: i32, x: i32, y: i32) -> int {
    let m = abs_int(sx - x) + abs_int(sy - y);
    if m > i32::MAX {
        i32::MAX as int
    } else {
        m
    }
}

/// Whether the machine computes the jump between two points without overflow.
pub open spec fn jump_defined(sx: i32, sy: i32, x: i32, y: i32) -> bool {
    i32::MIN < sx - x <= i32::MAX && i32::MIN < sy - y <= i32::MAX
}

/// Whether the jump between two points can be computed (see [`jump_defined`]).
pub fn jump_is_defined(sx: i32, sy: i32, x: i32, y: i32) -> (b: bool)
    ensures
        b == jump_defined(sx, sy, x, y),
{
    let ddx: i64 = sx as i64 - x as i64;
    let ddy: i64 = sy as i64 - y as i64;
    let lo: i64 = i32::MIN as i64;
    let hi: i64 = i32::MAX as i64;
    lo < ddx && ddx <= hi && lo < ddy && ddy <= hi
}

fn jump(sx: i32, sy: i32, x: i32, y: i32) -> (r: i32)
    requires
        jump_defined(sx, sy, x, y),
    ensures
        r == cursor_jump(sx, sy, x, y),
{
    let ddx: i32 = sx - x;
    let ddy: i32 = sy - y;
    let ax: i32 = if ddx < 0 { -ddx } else { ddx };
    let ay: i32 = if ddy < 0 { -ddy } else { ddy };
    let sum: i64 = ax as i64 + ay as i64;
    if sum > i32::MAX as i64 {
        i32::MAX
    } else {
        sum as i32
    }
}

/// The cursor shared by both ends of a KVM session: which device hosts
/// it, where it is, and the sequence number of its last update.
#[derive(Clone, Copy, Debug, PartialEq, Eq, Structural)]
pub struct SessionCursor {
    pub x: i32,
    pub y: i32,
    pub seq: u64,
    pub ready: bool,
    pub host: Option<DeviceId>,
    /// Whether the peer is driving this screen.
    pub peer_controls_us: bool,
}

/// The session cursor before any update.
pub open spec fn cleared_cursor() -> SessionCursor {
    SessionCursor { x: 0, y: 0, seq: 0, ready: false, host: None, peer_controls_us: false }
}

/// What the cursor becomes once an update from `host` is stored.
pub open spec fn stored_cursor(c: SessionCursor, host: DeviceId, x: i32, y: i32, seq: u64) -> SessionCursor {
    SessionCursor { x, y, seq, ready: true, host: Some(host), ..c }
}

/// The plan of a switch of the focus to the remote screen.
#[derive(Clone, Copy, Debug, PartialEq, Eq, Structural)]
pub struct EdgeSwitchPlan {
    pub peer: PeerId,
    /// Where the local cursor is parked while the peer has the focus.
    pub safe_x: i32,
    pub safe_y: i32,
    /// Where the cursor enters the remote screen.
    pub entry_x: i32,
    pub entry_y: i32,
}

/// What a session cursor update from the peer asks for.
#[derive(Clone, Copy, Debug, PartialEq, Eq, Structural)]
pub enum CursorSyncAction {
    /// Stale or unusable: nothing changes.
    Ignored,
    /// Stored, nothing else to do.
    Stored,
    /// This device hosts the cursor again: warp it here.
    WarpLocal { x: i32, y: i32 },
    /// The peer hosts the cursor while it has the focus: track it there.
    TrackRemote { x: i32, y: i32 },
}

/// What a local mouse move does while the peer drives this screen.
#[derive(Clone, Copy, Debug, PartialEq, Eq, Structural)]
pub enum TakeoverCheck {
    /// The peer is not driving: go on as usual.
    NotControlled,
    /// The move is large enough to take control back.
    TakeBack,
    /// A small move while the peer drives: ignore it.
    Ignore,
}

/// The input-control state of this device.
#[derive(Clone, Copy, Debug, PartialEq, Eq, Structural)]
pub struct InputFocusCore {
    pub focus: FocusState,
    /// The peer the KVM session runs with.
    pub active_peer: Option<PeerId>,
    pub enabled: bool,
    pub local_device: Option<DeviceId>,
    pub cursor: SessionCursor,
    /// The estimated cursor position on the remote screen.
    pub remote_x: i32,
    pub remote_y: i32,
    /// Whether crossing back to the local screen is allowed (the cursor
    /// went far enough inland on the remote screen first).
    pub return_armed: bool,
    /// When the focus last crossed to the remote screen, in milliseconds.
    pub grace_since_ms: Option<u64>,
}

/// The state after the session with a peer ended: no active peer, local
/// focus unlocked, a cleared session cursor.
pub open spec fn after_session_end(s: InputFocusCore, disarm: bool) -> InputFocusCore {
    InputFocusCore {
        active_peer: None,
        enabled: false,
        focus: FocusState { target: FocusTarget::Local, lock_mode: false },
        cursor: cleared_cursor(),
        remote_x: 0,
        return_armed: if disarm { false } else { s.return_armed },
        ..s
    }
}

impl InputFocusCore {
    /// Nothing active: local focus, unlocked, no session cursor.
    pub fn new() -> (s: Self)
        ensures
            s == (InputFocusCore {
                focus: FocusState { target: FocusTarget::Local, lock_mode: false },
                active_peer: None,
                enabled: false,
                local_device: None,
                cursor: cleared_cursor(),
                remote_x: 0,
                remote_y: 0,
                return_armed: false,
                grace_since_ms: None,
            }),
    {
        InputFocusCore {
            focus: FocusState::new(),
            active_peer: None,
            enabled: false,
            local_device: None,
            cursor: SessionCursor { x: 0, y: 0, seq: 0, ready: false, host: None, peer_controls_us: false },
            remote_x: 0,
            remote_y: 0,
            return_armed: false,
            grace_since_ms: None,
        }
    }

    /// Whether the KVM session runs with `peer`.
    pub fn is_active_for_peer(&self, peer: PeerId) -> (b: bool)
        ensures
            b == (self.enabled && self.active_peer == Some(peer)),
    {
        self.enabled && self.active_peer == Some(peer)
    }

    /// Moves the focus and announces it (see [`focus_switch_events`]).
    pub fn switch_focus(&mut self, to: FocusTarget) -> (events: Vec<DomainEvent>)
        ensures
            *final(self) == (InputFocusCore {
                focus: FocusState { target: to, lock_mode: old(self).focus.lock_mode },
                ..*old(self)
            }),
            events@ == focus_switch_events(old(self).focus.target, to),
    {
        let t = self.focus.apply_focus_target(to);
        focus_events(t.from, t.to)
    }

    /// A global hotkey: panic brings the focus home, toggle flips the
    /// lock, force reset brings the focus home unlocked without announcing
    /// a switch, and open-workspace is only announced.
    pub fn handle_hotkey(&mut self, action: HotkeyAction) -> (events: Vec<DomainEvent>)
        ensures
            action == HotkeyAction::PanicLocal ==> *final(self) == (InputFocusCore {
                focus: FocusState { target: FocusTarget::Local, lock_mode: old(self).focus.lock_mode },
                ..*old(self)
            }) && events@ == focus_switch_events(old(self).focus.target, FocusTarget::Local).push(
                DomainEvent::HotkeyTriggered { action },
            ),
            action == HotkeyAction::ToggleLock ==> *final(self) == (InputFocusCore {
                focus: FocusState { target: old(self).focus.target, lock_mode: !old(self).focus.lock_mode },
                ..*old(self)
            }) && events@ == seq![DomainEvent::HotkeyTriggered { action }],
            action == HotkeyAction::ForceReset ==> *final(self) == (InputFocusCore {
                focus: FocusState { target: FocusTarget::Local, lock_mode: false },
                ..*old(self)
            }) && events@ == seq![DomainEvent::HotkeyTriggered { action }],
            action == HotkeyAction::OpenActiveWorkspace ==> *final(self) == *old(self) && events@ == seq![
                DomainEvent::HotkeyTriggered { action },
            ],
    {
        match action {
            HotkeyAction::PanicLocal => {
                let mut events = self.switch_focus(FocusTarget::Local);
                events.push(DomainEvent::HotkeyTriggered { action });
                events
            },
            HotkeyAction::ToggleLock => {
                let _ = self.focus.toggle_lock_mode();
                let mut events: Vec<DomainEvent> = Vec::new();
                events.push(DomainEvent::HotkeyTriggered { action });
                proof {
                    assert(events@ =~= seq![DomainEvent::HotkeyTriggered { action }]);
                }
                events
            },
            HotkeyAction::ForceReset => {
                self.focus.target = FocusTarget::Local;
                self.focus.lock_mode = false;
                let mut events: Vec<DomainEvent> = Vec::new();
                events.push(DomainEvent::HotkeyTriggered { action });
                proof {
                    assert(events@ =~= seq![DomainEvent::HotkeyTriggered { action }]);
                }
                events
            },
            HotkeyAction::OpenActiveWorkspace => {
                let mut events: Vec<DomainEvent> = Vec::new();
                events.push(DomainEvent::HotkeyTriggered { action });
                proof {
                    assert(events@ =~= seq![DomainEvent::HotkeyTriggered { action }]);
                }
                events
            },
        }
    }

    /// The connection to `peer` was lost or it disconnected. When it was
    /// the active peer, the session ends (see [`after_session_end`]; a lost
    /// connection also disarms the way back) and `true` comes back;
    /// otherwise nothing changes.
    pub fn end_session(&mut self, peer: PeerId, disarm: bool) -> (was_active: bool)
        ensures
            was_active == (old(self).active_peer == Some(peer)),
            was_active ==> *final(self) == after_session_end(*old(self), disarm),
            !was_active ==> *final(self) == *old(self),
    {
        if self.active_peer != Some(peer) {
            return false;
        }
        self.active_peer = None;
        self.enabled = false;
        self.remote_x = 0;
        if disarm {
            self.return_armed = false;
        }
        self.focus.target = FocusTarget::Local;
        self.focus.lock_mode = false;
        self.cursor = SessionCursor { x: 0, y: 0, seq: 0, ready: false, host: None, peer_controls_us: false };
        true
    }

    /// Whether a layout update for `peer` is applied now: the session with
    /// it is on and the focus is local (otherwise it waits).
    pub fn applies_layout_update(&self, peer: PeerId) -> (b: bool)
        ensures
            b == (self.enabled && self.active_peer == Some(peer) && self.focus.target == FocusTarget::Local),
    {
        self.enabled && self.active_peer == Some(peer) && self.focus.target == FocusTarget::Local
    }

    /// The peer whose stored layout is reloaded once the focus came back
    /// home, if the session is on.
    pub fn reload_after_focus(&self, to: FocusTarget) -> (r: Option<PeerId>)
        ensures
            r == (if to == FocusTarget::Local && self.enabled { self.active_peer } else { None }),
    {
        if to == FocusTarget::Local && self.enabled {
            self.active_peer
        } else {
            None
        }
    }

    /// Stores a local cursor update under the next sequence number and
    /// hands out the host and number to broadcast; nothing without a local
    /// device.
    pub fn update_local_cursor(&mut self, x: i32, y: i32) -> (r: Option<(DeviceId, u64)>)
        requires
            old(self).cursor.seq < u64::MAX,
        ensures
            old(self).local_device is None ==> r is None && *final(self) == *old(self),
            old(self).local_device matches Some(d) ==> r == Some((d, (old(self).cursor.seq + 1) as u64))
                && *final(self) == (InputFocusCore {
                cursor: stored_cursor(old(self).cursor, d, x, y, (old(self).cursor.seq + 1) as u64),
                ..*old(self)
            }),
    {
        match self.local_device {
            None => None,
            Some(d) => {
                let seq = self.cursor.seq + 1;
                self.cursor.x = x;
                self.cursor.y = y;
                self.cursor.seq = seq;
                self.cursor.host = Some(d);
                self.cursor.ready = true;
                Some((d, seq))
            },
        }
    }

    /// Registers the cursor position when a connection comes up; without a
    /// local device this is an `InternalError`.
    pub fn register_at_connection(&mut self, x: i32, y: i32) -> (r: Result<(DeviceId, u64), DomainError>)
        requires
            old(self).cursor.seq < u64::MAX,
        ensures
            old(self).local_device is None ==> (r matches Err(e) && e.code == DomainErrorCode::InternalError)
                && *final(self) == *old(self),
            old(self).local_device matches Some(d) ==> r == Ok::<(DeviceId, u64), DomainError>((d, (old(self).cursor.seq + 1) as u64))
                && *final(self) == (InputFocusCore {
                cursor: stored_cursor(old(self).cursor, d, x, y, (old(self).cursor.seq + 1) as u64),
                ..*old(self)
            }),
    {
        match self.update_local_cursor(x, y) {
            Some(v) => Ok(v),
            None => Err(DomainError::new(DomainErrorCode::InternalError, "local_device_id não configurado")),
        }
    }

    /// Takes control back from the peer at `(x, y)`: the cursor update is
    /// stored as in [`InputFocusCore::update_local_cursor`], and once the
    /// takeover can be sent (`can_send`) the peer no longer drives.
    pub fn take_control(&mut self, x: i32, y: i32, can_send: bool) -> (r: Option<(DeviceId, u64)>)
        requires
            old(self).cursor.seq < u64::MAX,
        ensures
            old(self).local_device is None ==> r is None && *final(self) == *old(self),
            old(self).local_device matches Some(d) ==> r == Some((d, (old(self).cursor.seq + 1) as u64))
                && *final(self) == (InputFocusCore {
                cursor: SessionCursor {
                    peer_controls_us: if can_send { false } else { old(self).cursor.peer_controls_us },
                    ..stored_cursor(old(self).cursor, d, x, y, (old(self).cursor.seq + 1) as u64)
                },
                ..*old(self)
            }),
    {
        let r = self.update_local_cursor(x, y);
        if r.is_some() && can_send {
            self.cursor.peer_controls_us = false;
        }
        r
    }

    /// A local mouse move at `(sx, sy)` while the focus is local: when the
    /// peer drives this screen, a move of at least
    /// `SESSION_TAKEOVER_MANHATTAN_PX` from the session cursor takes
    /// control back and a smaller one is ignored.
    pub fn takeover_check(&self, sx: i32, sy: i32) -> (r: TakeoverCheck)
        requires
            self.cursor.peer_controls_us ==> jump_defined(sx, sy, self.cursor.x, self.cursor.y),
        ensures
            !self.cursor.peer_controls_us ==> r == TakeoverCheck::NotControlled,
            self.cursor.peer_controls_us && cursor_jump(sx, sy, self.cursor.x, self.cursor.y)
                >= SESSION_TAKEOVER_MANHATTAN_PX ==> r == TakeoverCheck::TakeBack,
            self.cursor.peer_controls_us && cursor_jump(sx, sy, self.cursor.x, self.cursor.y)
                < SESSION_TAKEOVER_MANHATTAN_PX ==> r == TakeoverCheck::Ignore,
    {
        if !self.cursor.peer_controls_us {
            return TakeoverCheck::NotControlled;
        }
        if jump(sx, sy, self.cursor.x, self.cursor.y) >= SESSION_TAKEOVER_MANHATTAN_PX {
            TakeoverCheck::TakeBack
        } else {
            TakeoverCheck::Ignore
        }
    }

    /// Whether a local move at `(sx, sy)` means another physical mouse
    /// took over on this device: the session cursor is ready and hosted
    /// here, the move is not heading out of the local screen, and it lands
    /// more than `SESSION_HANDOFF_MANHATTAN_PX` from the session cursor.
    /// Gives the point the cursor is warped back to.
    pub fn handoff_target(&self, approaching_exit: bool, sx: i32, sy: i32) -> (r: Option<(i32, i32)>)
        requires
            jump_defined(sx, sy, self.cursor.x, self.cursor.y),
        ensures
            r is Some <==> (self.cursor.ready && !approaching_exit && self.local_device is Some
                && self.cursor.host == self.local_device && cursor_jump(sx, sy, self.cursor.x, self.cursor.y)
                > SESSION_HANDOFF_MANHATTAN_PX),
            r is Some ==> r == Some((self.cursor.x, self.cursor.y)),
    {
        if !self.cursor.ready || approaching_exit {
            return None;
        }
        match self.local_device {
            None => None,
            Some(d) => {
                if self.cursor.host != Some(d) {
                    return None;
                }
                if jump(sx, sy, self.cursor.x, self.cursor.y) <= SESSION_HANDOFF_MANHATTAN_PX {
                    return None;
                }
                Some((self.cursor.x, self.cursor.y))
            },
        }
    }

    /// The local cursor hit the edge toward the peer (`edge_hit`, from the
    /// layout). Unless the focus is locked, no session is active, or the
    /// focus already is on that peer, the switch is planned: the way back
    /// is disarmed, the grace period starts at `now_ms`, the remote
    /// estimate is the entry point, and the local cursor is parked in the
    /// middle of the clip rectangle.
    pub fn plan_edge_switch(
        &mut self,
        edge_hit: bool,
        entry: (i32, i32),
        clip: (i32, i32, u32, u32),
        now_ms: u64,
    ) -> (r: Option<EdgeSwitchPlan>)
        requires
            safe_point_defined(clip),
        ensures
            !edge_switch_allowed(*old(self), edge_hit) ==> r is None && *final(self) == *old(self),
            edge_switch_allowed(*old(self), edge_hit) ==> r == Some(
                EdgeSwitchPlan {
                    peer: old(self).active_peer->0,
                    safe_x: safe_point(clip).0 as i32,
                    safe_y: safe_point(clip).1 as i32,
                    entry_x: entry.0,
                    entry_y: entry.1,
                },
            ) && *final(self) == (InputFocusCore {
                remote_x: entry.0,
                remote_y: entry.1,
                return_armed: false,
                grace_since_ms: Some(now_ms),
                ..*old(self)
            }),
    {
        if !edge_hit || self.focus.lock_mode {
            return None;
        }
        let peer = match self.active_peer {
            None => {
                return None;
            },
            Some(p) => p,
        };
        if self.focus.target == FocusTarget::Remote(peer) {
            return None;
        }
        let (safe_x, safe_y) = safe_point_of(clip);
        self.remote_x = entry.0;
        self.remote_y = entry.1;
        self.return_armed = false;
        self.grace_since_ms = Some(now_ms);
        Some(EdgeSwitchPlan { peer, safe_x, safe_y, entry_x: entry.0, entry_y: entry.1 })
    }

    /// The physical switch to the remote screen failed: the grace period
    /// is dropped and the focus stays local.
    pub fn abort_edge_switch(&mut self)
        ensures
            *final(self) == (InputFocusCore { grace_since_ms: None, ..*old(self) }),
    {
        self.grace_since_ms = None;
    }

    /// The physical switch to the remote screen succeeded: the cursor
    /// position at the edge is stored as in
    /// [`InputFocusCore::update_local_cursor`] and the focus goes to the peer.
    pub fn commit_edge_switch(&mut self, peer: PeerId, sx: i32, sy: i32) -> (r: (Option<(DeviceId, u64)>, Vec<DomainEvent>))
        requires
            old(self).cursor.seq < u64::MAX,
        ensures
            r.1@ == focus_switch_events(old(self).focus.target, FocusTarget::Remote(peer)),
            final(self).focus == (FocusState { target: FocusTarget::Remote(peer), lock_mode: old(self).focus.lock_mode }),
            old(self).active_peer is None ==> r.0 is None && final(self).cursor == old(self).cursor,
            old(self).local_device matches Some(d) ==> (old(self).active_peer is Some ==> r.0 == Some(
                (d, (old(self).cursor.seq + 1) as u64),
            ) && final(self).cursor == stored_cursor(old(self).cursor, d, sx, sy, (old(self).cursor.seq + 1) as u64)),
            old(self).local_device is None ==> r.0 is None && final(self).cursor == old(self).cursor,
            *final(self) == (InputFocusCore { focus: final(self).focus, cursor: final(self).cursor, ..*old(self) }),
    {
        let stored = if self.active_peer.is_some() {
            self.update_local_cursor(sx, sy)
        } else {
            None
        };
        let events = self.switch_focus(FocusTarget::Remote(peer));
        (stored, events)
    }

    /// Whether the grace period after crossing is still running at `now_ms`.
    pub fn in_grace(&self, now_ms: u64) -> (b: bool)
        ensures
            b == (self.grace_since_ms matches Some(t) && (if now_ms >= t { now_ms - t } else { 0 })
                < REMOTE_SWITCH_GRACE_MS),
    {
        match self.grace_since_ms {
            None => false,
            Some(t) => now_ms.saturating_sub(t) < REMOTE_SWITCH_GRACE_MS,
        }
    }

    /// A raw mouse delta while the peer has the focus: the remote estimate
    /// moves by the scaled delta and stays on the remote screen of size
    /// `width` x `height`.
    pub fn advance_remote_estimate(&mut self, dx: i32, dy: i32, scale_q8: i32, width: u32, height: u32)
        requires
            1 <= width <= i32::MAX,
            1 <= height <= i32::MAX,
            i32::MIN <= old(self).remote_x + scaled_delta(dx, scale_q8) <= i32::MAX,
            i32::MIN <= old(self).remote_y + scaled_delta(dy, scale_q8) <= i32::MAX,
        ensures
            *final(self) == (InputFocusCore {
                remote_x: clamp_int(old(self).remote_x + scaled_delta(dx, scale_q8), 0, width - 1) as i32,
                remote_y: clamp_int(old(self).remote_y + scaled_delta(dy, scale_q8), 0, height - 1) as i32,
                ..*old(self)
            }),
    {
        let (sdx, sdy) = scale_mouse_delta(dx, dy, scale_q8);
        let max_x: i32 = (width as i32) - 1;
        let max_y: i32 = (height as i32) - 1;
        let nx: i32 = self.remote_x + sdx;
        let ny: i32 = self.remote_y + sdy;
        self.remote_x = if nx < 0 { 0 } else if nx > max_x { max_x } else { nx };
        self.remote_y = if ny < 0 { 0 } else if ny > max_y { max_y } else { ny };
    }

    /// Whether the focus goes back home after a remote move. During the
    /// grace period never; otherwise the way back arms once the estimate is
    /// far enough inland (`inland_enough`, from the layout), and an armed
    /// way back is taken when the estimate crossed the return edge
    /// (`at_return_edge`, from the layout).
    pub fn remote_return_check(&mut self, in_grace: bool, inland_enough: bool, at_return_edge: bool) -> (go_back: bool)
        ensures
            in_grace ==> !go_back && *final(self) == *old(self),
            !in_grace ==> *final(self) == (InputFocusCore {
                return_armed: old(self).return_armed || inland_enough,
                ..*old(self)
            }) && go_back == ((old(self).return_armed || inland_enough) && at_return_edge),
    {
        if in_grace {
            return false;
        }
        if !self.return_armed && inland_enough {
            self.return_armed = true;
        }
        self.return_armed && at_return_edge
    }

    /// Starts the way back home: it must be armed (and is disarmed by
    /// starting) and the peer must have the focus. Without a layout the
    /// way back is re-armed and not taken.
    pub fn begin_switch_back(&mut self, has_layout: bool) -> (go: bool)
        ensures
            go == (old(self).return_armed && old(self).focus.target is Remote && has_layout),
            *final(self) == (InputFocusCore {
                return_armed: old(self).return_armed && old(self).focus.target is Remote && !has_layout,
                ..*old(self)
            }),
    {
        if !self.return_armed {
            return false;
        }
        self.return_armed = false;
        match self.focus.target {
            FocusTarget::Local => false,
            FocusTarget::Remote(_) => {
                if !has_layout {
                    self.return_armed = true;
                    return false;
                }
                true
            },
        }
    }

    /// A physical step of the way back failed: it is armed again.
    pub fn rearm_return(&mut self)
        ensures
            *final(self) == (InputFocusCore { return_armed: true, ..*old(self) }),
    {
        self.return_armed = true;
    }

    /// The way back home succeeded at `(wx, wy)`: the peer no longer drives
    /// this screen, the position is stored as in
    /// [`InputFocusCore::update_local_cursor`] while a session runs, the
    /// focus comes home, and grace and arming are cleared.
    pub fn finish_switch_back(&mut self, wx: i32, wy: i32) -> (r: (Option<(DeviceId, u64)>, Vec<DomainEvent>))
        requires
            old(self).cursor.seq < u64::MAX,
        ensures
            r.1@ == focus_switch_events(old(self).focus.target, FocusTarget::Local),
            final(self).focus == (FocusState { target: FocusTarget::Local, lock_mode: old(self).focus.lock_mode }),
            final(self).grace_since_ms is None,
            !final(self).return_armed,
            !final(self).cursor.peer_controls_us,
            (old(self).active_peer is None || old(self).local_device is None) ==> r.0 is None
                && final(self).cursor == (SessionCursor { peer_controls_us: false, ..old(self).cursor }),
            old(self).local_device matches Some(d) ==> (old(self).active_peer is Some ==> r.0 == Some(
                (d, (old(self).cursor.seq + 1) as u64),
            ) && final(self).cursor == (SessionCursor {
                peer_controls_us: false,
                ..stored_cursor(old(self).cursor, d, wx, wy, (old(self).cursor.seq + 1) as u64)
            })),
            *final(self) == (InputFocusCore {
                focus: final(self).focus,
                cursor: final(self).cursor,
                grace_since_ms: None,
                return_armed: false,
                ..*old(self)
            }),
    {
        self.cursor.peer_controls_us = false;
        let stored = if self.active_peer.is_some() {
            self.update_local_cursor(wx, wy)
        } else {
            None
        };
        let events = self.switch_focus(FocusTarget::Local);
        self.grace_since_ms = None;
        self.return_armed = false;
        (stored, events)
    }

    /// A session cursor update from `peer`. Ignored without a local device
    /// or when not newer than the last one; otherwise stored. When this
    /// device hosts it and the peer was driving, the cursor is warped here
    /// and the peer no longer drives; when the peer hosts it while it has
    /// the focus, the remote estimate follows it.
    pub fn on_cursor_sync(&mut self, peer: PeerId, host: DeviceId, x: i32, y: i32, seq: u64) -> (r: CursorSyncAction)
        ensures
            (old(self).local_device is None || seq <= old(self).cursor.seq) ==> r == CursorSyncAction::Ignored
                && *final(self) == *old(self),
            old(self).local_device matches Some(d) ==> (seq > old(self).cursor.seq ==> {
                let stored = stored_cursor(old(self).cursor, host, x, y, seq);
                if host == d && old(self).cursor.peer_controls_us {
                    r == (CursorSyncAction::WarpLocal { x, y }) && *final(self) == (InputFocusCore {
                        cursor: SessionCursor { peer_controls_us: false, ..stored },
                        ..*old(self)
                    })
                } else if host != d && old(self).focus.target == FocusTarget::Remote(peer) {
                    r == (CursorSyncAction::TrackRemote { x, y }) && *final(self) == (InputFocusCore {
                        cursor: stored,
                        ..*old(self)
                    })
                } else {
                    r == CursorSyncAction::Stored && *final(self) == (InputFocusCore { cursor: stored, ..*old(self) })
                }
            }),
    {
        let d = match self.local_device {
            None => {
                return CursorSyncAction::Ignored;
            },
            Some(d) => d,
        };
        if seq <= self.cursor.seq {
            return CursorSyncAction::Ignored;
        }
        self.cursor.x = x;
        self.cursor.y = y;
        self.cursor.seq = seq;
        self.cursor.host = Some(host);
        self.cursor.ready = true;
        if host == d && self.cursor.peer_controls_us {
            self.cursor.peer_controls_us = false;
            CursorSyncAction::WarpLocal { x, y }
        } else if host != d && self.focus.target == FocusTarget::Remote(peer) {
            CursorSyncAction::TrackRemote { x, y }
        } else {
            CursorSyncAction::Stored
        }
    }

    /// Sets the remote estimate (a synced cursor, mapped by the layout).
    pub fn set_remote_estimate(&mut self, x: i32, y: i32)
        ensures
            *final(self) == (InputFocusCore { remote_x: x, remote_y: y, ..*old(self) }),
    {
        self.remote_x = x;
        self.remote_y = y;
    }

    /// The peer took control back (device `taker`, at `(x, y)`, number
    /// `seq`). Ignored without a local device, when the taker is this
    /// device, or when not newer than the last update. Otherwise stored,
    /// and when the peer had the focus it comes home: the peer no longer
    /// drives, the way back is disarmed and the grace period dropped
    /// (`true` comes back).
    pub fn on_takeover(&mut self, peer: PeerId, taker: DeviceId, x: i32, y: i32, seq: u64) -> (released: bool)
        ensures
            (old(self).local_device is None || old(self).local_device == Some(taker) || seq <= old(self).cursor.seq)
                ==> !released && *final(self) == *old(self),
            !(old(self).local_device is None || old(self).local_device == Some(taker) || seq <= old(self).cursor.seq)
                ==> {
                let stored = stored_cursor(old(self).cursor, taker, x, y, seq);
                if old(self).focus.target == FocusTarget::Remote(peer) {
                    released && *final(self) == (InputFocusCore {
                        focus: FocusState { target: FocusTarget::Local, lock_mode: old(self).focus.lock_mode },
                        cursor: SessionCursor { peer_controls_us: false, ..stored },
                        return_armed: false,
                        grace_since_ms: None,
                        ..*old(self)
                    })
                } else {
                    !released && *final(self) == (InputFocusCore { cursor: stored, ..*old(self) })
                }
            },
    {
        let d = match self.local_device {
            None => {
                return false;
            },
            Some(d) => d,
        };
        if taker == d || seq <= self.cursor.seq {
            return false;
        }
        self.cursor.x = x;
        self.cursor.y = y;
        self.cursor.seq = seq;
        self.cursor.host = Some(taker);
        self.cursor.ready = true;
        if self.focus.target == FocusTarget::Remote(peer) {
            self.focus.target = FocusTarget::Local;
            self.cursor.peer_controls_us = false;
            self.return_armed = false;
            self.grace_since_ms = None;
            true
        } else {
            false
        }
    }
}

/// Whether an edge hit switches the focus: not locked, a session peer,
/// and the focus not already on it.
pub open spec fn edge_switch_allowed(s: InputFocusCore, edge_hit: bool) -> bool {
    edge_hit && !s.focus.lock_mode && s.active_peer is Some && s.focus.target != FocusTarget::Remote(s.active_peer->0)
}

/// `v` brought into `[lo, hi]`.
pub open spec fn clamp_int(v: int, lo: int, hi: int) -> int {
    if v < lo {
        lo
    } else if v > hi {
        hi
    } else {
        v
    }
}

/// A clip size as an `i32`, or the fallback when it does not fit.
pub open spec fn clip_extent(v: u32, fallback: i32) -> int {
    if v <= i32::MAX { v as int } else { fallback as int }
}

/// The middle of the clip rectangle, where the local cursor is parked.
pub open spec fn safe_point(clip: (i32, i32, u32, u32)) -> (int, int) {
    (
        clip.0 + trunc_div(clip_extent(clip.2, FALLBACK_CLIP_WIDTH), 2),
        clip.1 + trunc_div(clip_extent(clip.3, FALLBACK_CLIP_HEIGHT), 2),
    )
}

/// Whether the middle of the clip rectangle fits an `i32`.
pub open spec fn safe_point_defined(clip: (i32, i32, u32, u32)) -> bool {
    safe_point(clip).0 <= i32::MAX && safe_point(clip).1 <= i32::MAX
}

/// Whether the middle of a clip rectangle fits an `i32` (see [`safe_point_defined`]).
pub fn safe_point_fits(clip: (i32, i32, u32, u32)) -> (b: bool)
    ensures
        b == safe_point_defined(clip),
{
    let w = extent(clip.2, FALLBACK_CLIP_WIDTH);
    let h = extent(clip.3, FALLBACK_CLIP_HEIGHT);
    let hi: i64 = i32::MAX as i64;
    clip.0 as i64 + (w / 2) as i64 <= hi && clip.1 as i64 + (h / 2) as i64 <= hi
}

/// Whether a remote move can be applied to the estimate `(rx, ry)` on a
/// remote screen of `width` x `height` (what
/// [`InputFocusCore::advance_remote_estimate`] needs).
pub fn estimate_step_fits(rx: i32, ry: i32, dx: i32, dy: i32, scale_q8: i32, width: u32, height: u32) -> (b: bool)
    ensures
        b == (1 <= width <= i32::MAX && 1 <= height <= i32::MAX && i32::MIN <= rx + scaled_delta(dx, scale_q8) <= i32::MAX
            && i32::MIN <= ry + scaled_delta(dy, scale_q8) <= i32::MAX),
{
    let (sdx, sdy) = scale_mouse_delta(dx, dy, scale_q8);
    let nx: i64 = rx as i64 + sdx as i64;
    let ny: i64 = ry as i64 + sdy as i64;
    let lo: i64 = i32::MIN as i64;
    let hi: i64 = i32::MAX as i64;
    let max_side: u32 = i32::MAX as u32;
    1 <= width && width <= max_side && 1 <= height && height <= max_side && lo <= nx && nx <= hi && lo <= ny && ny <= hi
}

fn extent(v: u32, fallback: i32) -> (r: i32)
    ensures
        r == clip_extent(v, fallback),
{
    if v <= i32::MAX as u32 {
        v as i32
    } else {
        fallback
    }
}

fn safe_point_of(clip: (i32, i32, u32, u32)) -> (r: (i32, i32))
    requires
        safe_point_defined(clip),
    ensures
        r.0 == safe_point(clip).0,
        r.1 == safe_point(clip).1,
{
    let w = extent(clip.2, FALLBACK_CLIP_WIDTH);
    let h = extent(clip.3, FALLBACK_CLIP_HEIGHT);
    (clip.0 + w / 2, clip.1 + h / 2)
}

/// The jump between the session cursor `(x, y)` and a move to `(sx, sy)`
/// is their Manhattan distance: the horizontal distance plus the vertical
/// distance, saturated at `i32::MAX`.
pub proof fn jump_is_manhattan_distance(sx: i32, sy: i32, x: i32, y: i32)
    ensures
        ({
            let dx: int = if sx >= x { sx - x } else { x - sx };
            let dy: int = if sy >= y { sy - y } else { y - sy };
            cursor_jump(sx, sy, x, y) == if dx + dy > i32::MAX { i32::MAX as int } else { dx + dy }
        }),
{
}

/// The jump depends only on how far each coordinate moved: shifting both
/// points by the same offset keeps it, and a purely horizontal or purely
/// vertical move jumps by the distance moved.
pub proof fn jump_depends_on_coordinate_differences(sx: i32, sy: i32, x: i32, y: i32, ox: i32, oy: i32, d: i32)
    requires
        i32::MIN <= sx + ox <= i32::MAX,
        i32::MIN <= x + ox <= i32::MAX,
        i32::MIN <= sy + oy <= i32::MAX,
        i32::MIN <= y + oy <= i32::MAX,
        i32::MIN <= x + d <= i32::MAX,
        i32::MIN <= y + d <= i32::MAX,
        d != i32::MIN,
    ensures
        cursor_jump((sx + ox) as i32, (sy + oy) as i32, (x + ox) as i32, (y + oy) as i32) == cursor_jump(sx, sy, x, y),
        cursor_jump((x + d) as i32, y, x, y) == (if d >= 0 { d as int } else { -d }),
        cursor_jump(x, (y + d) as i32, x, y) == (if d >= 0 { d as int } else { -d }),
{
}

/// The focus never moves to a peer while it is locked.
pub proof fn lock_mode_blocks_edge_switch(s: InputFocusCore, edge_hit: bool)
    requires
        s.focus.lock_mode,
    ensures
        !edge_switch_allowed(s, edge_hit),
{
}

} // verus!
