//! Turning input control on for a peer, and what happens to each input
//! event while it runs: which events are forwarded, in which way, and the
//! keyboard mirror used to test the input stream.

use vstd::prelude::*;
use crate::error::{fails_with, DomainError, DomainErrorCode};
use crate::events::FocusTarget;
use crate::ids::PeerId;
use crate::input_focus::InputFocusCore;
use crate::input_wire::{InputEvent, KeyModifiers, MouseButton, PortableKeyCode};
use crate::layout::MonitorRect;

verus! {

/// What turning input control on for a peer still has to do.
#[derive(Clone, Copy, Debug, PartialEq, Eq, Structural)]
pub enum EnableStep {
    /// It already runs with this peer: only the layout is applied again.
    ReapplyLayout,
    /// Start it: open the input stream, hook local input, inject remote input.
    Start,
}

impl InputFocusCore {
    /// The first step of turning input control on for `peer`: a peer that
    /// is not connected is refused with `TransportConnectionFailed`; a
    /// session already running with it only has its layout applied again;
    /// otherwise the peer becomes the active one.
    pub fn begin_enable(&mut self, peer: PeerId, connected: bool) -> (r: Result<EnableStep, DomainError>)
        ensures
            !connected ==> fails_with(r, DomainErrorCode::TransportConnectionFailed) && *final(self) == *old(self),
            connected && old(self).enabled && old(self).active_peer == Some(peer) ==> r == Ok::<EnableStep, DomainError>(
                EnableStep::ReapplyLayout,
            ) && *final(self) == *old(self),
            connected && !(old(self).enabled && old(self).active_peer == Some(peer)) ==> r == Ok::<EnableStep, DomainError>(
                EnableStep::Start,
            ) && *final(self) == (InputFocusCore { active_peer: Some(peer), ..*old(self) }),
    {
        if !connected {
            return Err(DomainError::new(DomainErrorCode::TransportConnectionFailed, "peer não conectado via QUIC"));
        }
        if self.enabled && self.active_peer == Some(peer) {
            return Ok(EnableStep::ReapplyLayout);
        }
        self.active_peer = Some(peer);
        Ok(EnableStep::Start)
    }

    /// Input control started: it is on, and the remote estimate starts at
    /// the origin.
    pub fn finish_enable(&mut self)
        ensures
            *final(self) == (InputFocusCore { enabled: true, remote_x: 0, remote_y: 0, ..*old(self) }),
    {
        self.enabled = true;
        self.remote_x = 0;
        self.remote_y = 0;
    }

    /// The peer moved the cursor here (an injected move or warp): it now
    /// drives this screen. Tells whether the local cursor position is to be
    /// stored and broadcast (the focus is local and a session runs).
    pub fn on_injected_move(&mut self) -> (store_cursor: bool)
        ensures
            final(self).cursor.peer_controls_us,
            *final(self) == (InputFocusCore {
                cursor: crate::input_focus::SessionCursor { peer_controls_us: true, ..old(self).cursor },
                ..*old(self)
            }),
            store_cursor == (old(self).focus.target == FocusTarget::Local && old(self).active_peer is Some),
    {
        self.cursor.peer_controls_us = true;
        self.focus.target == FocusTarget::Local && self.active_peer.is_some()
    }
}

/// What the keyboard mirror needs before it starts for `peer`: a peer
/// that is not connected is refused with `TransportConnectionFailed`, and
/// input control running for another peer with `InternalError`; when input
/// control is off it is turned on first (`Ok(true)`).
pub fn mirror_precheck(core: &InputFocusCore, peer: PeerId, connected: bool) -> (r: Result<bool, DomainError>)
    ensures
        !connected ==> fails_with(r, DomainErrorCode::TransportConnectionFailed),
        connected && core.enabled && core.active_peer != Some(peer) ==> fails_with(r, DomainErrorCode::InternalError),
        connected && core.enabled && core.active_peer == Some(peer) ==> r == Ok::<bool, DomainError>(false),
        connected && !core.enabled ==> r == Ok::<bool, DomainError>(true),
{
    if !connected {
        return Err(DomainError::new(DomainErrorCode::TransportConnectionFailed, "peer não conectado via QUIC"));
    }
    if core.enabled {
        if core.active_peer != Some(peer) {
            return Err(DomainError::new(DomainErrorCode::InternalError, "input control ativo para outro peer"));
        }
        Ok(false)
    } else {
        Ok(true)
    }
}

/// How long the keyboard mirror runs: the requested seconds, at least one.
pub fn mirror_duration_secs(requested: u32) -> (s: u64)
    ensures
        s == (if requested < 1 { 1 } else { requested as int }),
{
    if requested < 1 {
        1
    } else {
        requested as u64
    }
}

/// The seconds left of the mirror as shown: none when it is off, and 0
/// when the count does not fit a `u32`.
pub fn mirror_seconds_left(active: bool, secs: Option<u64>) -> (r: u32)
    ensures
        r == (if active && secs is Some && secs->0 <= u32::MAX { secs->0 as int } else { 0 }),
{
    if !active {
        return 0;
    }
    match secs {
        None => 0,
        Some(s) => {
            if s <= u32::MAX as u64 {
                s as u32
            } else {
                0
            }
        },
    }
}

/// While the keyboard mirror runs, only key events go to the peer.
pub fn mirror_forwards(ev: &InputEvent) -> (b: bool)
    ensures
        b == (*ev is Key),
{
    match ev {
        InputEvent::Key { .. } => true,
        _ => false,
    }
}

/// How an event captured while the peer has the focus goes out.
#[derive(Clone, Copy, Debug, PartialEq, Eq, Structural)]
pub enum RemoteRoute {
    /// A mouse move: into the coalescer (after the way-back check).
    Coalesce,
    /// A button or wheel: pending movement first, then the event.
    FlushThenSend,
    /// A key: sent as it is.
    Send,
    /// Anything else stays here.
    Drop,
}

/// How an event captured while the peer has the focus goes out.
pub fn remote_route(ev: &InputEvent) -> (r: RemoteRoute)
    ensures
        r == match *ev {
            InputEvent::MouseMove { .. } => RemoteRoute::Coalesce,
            InputEvent::MouseButton { .. } => RemoteRoute::FlushThenSend,
            InputEvent::MouseScroll { .. } => RemoteRoute::FlushThenSend,
            InputEvent::Key { .. } => RemoteRoute::Send,
            InputEvent::MouseWarpAbsolute { .. } => RemoteRoute::Drop,
        },
{
    match ev {
        InputEvent::MouseMove { .. } => RemoteRoute::Coalesce,
        InputEvent::MouseButton { .. } => RemoteRoute::FlushThenSend,
        InputEvent::MouseScroll { .. } => RemoteRoute::FlushThenSend,
        InputEvent::Key { .. } => RemoteRoute::Send,
        InputEvent::MouseWarpAbsolute { .. } => RemoteRoute::Drop,
    }
}

/// The test click: the left button pressed, then released.
pub fn test_click_events() -> (v: Vec<InputEvent>)
    ensures
        v@ == seq![
            InputEvent::MouseButton { button: MouseButton::Left, pressed: true },
            InputEvent::MouseButton { button: MouseButton::Left, pressed: false },
        ],
{
    let mut v: Vec<InputEvent> = Vec::new();
    v.push(InputEvent::MouseButton { button: MouseButton::Left, pressed: true });
    v.push(InputEvent::MouseButton { button: MouseButton::Left, pressed: false });
    proof {
        assert(v@ =~= seq![
            InputEvent::MouseButton { button: MouseButton::Left, pressed: true },
            InputEvent::MouseButton { button: MouseButton::Left, pressed: false },
        ]);
    }
    v
}

/// The lab ping: the release of key code 0 without modifiers.
pub fn lab_ping_event() -> (e: InputEvent)
    ensures
        e == (InputEvent::Key {
            code: PortableKeyCode(0),
            pressed: false,
            modifiers: KeyModifiers { ctrl: false, shift: false, alt: false, meta: false },
        }),
{
    InputEvent::Key {
        code: PortableKeyCode(0),
        pressed: false,
        modifiers: KeyModifiers { ctrl: false, shift: false, alt: false, meta: false },
    }
}

/// The first saved monitor with this id, if any.
pub open spec fn saved_with_id(saved: Seq<MonitorRect>, id: crate::ids::MonitorId) -> Option<MonitorRect>
    decreases saved.len(),
{
    if saved.len() == 0 {
        None
    } else if saved[0].id == id {
        Some(saved[0])
    } else {
        saved_with_id(saved.drop_first(), id)
    }
}

/// A monitor the operating system reports, placed where it was saved: the
/// saved position with the current size, or as reported when it is new.
pub open spec fn refreshed_monitor(saved: Seq<MonitorRect>, os: MonitorRect) -> MonitorRect {
    match saved_with_id(saved, os.id) {
        Some(s) => MonitorRect { id: os.id, x: s.x, y: s.y, width: os.width, height: os.height },
        None => os,
    }
}

fn find_saved(saved: &Vec<MonitorRect>, id: crate::ids::MonitorId) -> (r: Option<MonitorRect>)
    ensures
        r == saved_with_id(saved@, id),
{
    proof {
        assert(saved@.skip(0) =~= saved@);
    }
    let mut i: usize = 0;
    while i < saved.len()
        invariant
            i <= saved@.len(),
            saved_with_id(saved@, id) == saved_with_id(saved@.skip(i as int), id),
        decreases saved@.len() - i,
    {
        proof {
            assert(saved@.skip(i as int).drop_first() =~= saved@.skip(i + 1));
        }
        if saved[i].id == id {
            return Some(saved[i]);
        }
        i = i + 1;
    }
    None
}

/// The monitors of a device refreshed from what the operating system
/// reports (see [`refreshed_monitor`]), in the order reported.
pub fn refresh_geometry(saved: &Vec<MonitorRect>, os: &Vec<MonitorRect>) -> (r: Vec<MonitorRect>)
    ensures
        r@.len() == os@.len(),
        forall|i: int| 0 <= i < os@.len() ==> #[trigger] r@[i] == refreshed_monitor(saved@, os@[i]),
{
    let mut r: Vec<MonitorRect> = Vec::new();
    let mut i: usize = 0;
    while i < os.len()
        invariant
            i <= os@.len(),
            r@.len() == i,
            forall|k: int| 0 <= k < i ==> #[trigger] r@[k] == refreshed_monitor(saved@, os@[k]),
        decreases os@.len() - i,
    {
        let m = os[i];
        let item = match find_saved(saved, m.id) {
            Some(s) => MonitorRect { id: m.id, x: s.x, y: s.y, width: m.width, height: m.height },
            None => m,
        };
        r.push(item);
        i = i + 1;
    }
    r
}

/// An opaque handle on a running input capture.
#[derive(Debug)]
pub struct CaptureHandle {
    pub id: u64,
}

/// The keyboard mirror as shown to the user.
#[derive(Clone, Copy, Debug)]
pub struct KeyboardMirrorStatus {
    pub active: bool,
    pub seconds_left: u32,
    pub keys_sent: u64,
    pub keys_hooked: u64,
    pub keys_send_errors: u64,
}

/// Counters of the input path, for diagnostics.
#[derive(Clone, Copy, Debug)]
pub struct InputDebugStats {
    pub mirror_active: bool,
    pub keys_sent: u64,
    pub keys_hooked: u64,
    pub keys_send_errors: u64,
    pub remote_frames_received: u64,
    pub remote_inject_ok: u64,
    pub remote_inject_fail: u64,
    pub mouse_frames_sent: u64,
    pub input_enabled: bool,
    pub has_input_tx: bool,
}

/// The keyboard mirror's status: the counters as they are, and the
/// seconds left as in [`mirror_seconds_left`].
pub fn mirror_status(active: bool, secs_left: Option<u64>, keys_sent: u64, keys_hooked: u64, keys_send_errors: u64) -> (s: KeyboardMirrorStatus)
    ensures
        s.active == active,
        s.seconds_left == (if active && secs_left is Some && secs_left->0 <= u32::MAX { secs_left->0 as int } else { 0 }),
        s.keys_sent == keys_sent,
        s.keys_hooked == keys_hooked,
        s.keys_send_errors == keys_send_errors,
{
    KeyboardMirrorStatus { active, seconds_left: mirror_seconds_left(active, secs_left), keys_sent, keys_hooked, keys_send_errors }
}

/// The 4x4 rectangle the cursor is confined to while the peer has the
/// focus, centred on where it is parked.
pub fn remote_clip_rect(center_x: i32, center_y: i32) -> (r: (i32, i32, u32, u32))
    requires
        center_x >= i32::MIN + 2,
        center_y >= i32::MIN + 2,
    ensures
        r == ((center_x - 2) as i32, (center_y - 2) as i32, 4u32, 4u32),
{
    (center_x - 2, center_y - 2, 4, 4)
}

/// Where the cursor lands when it comes home: 10 pixels inside the exit
/// edge, on the side of the primary monitor's centre.
pub fn local_return_x(edge_x: i32, primary_center_x: i32) -> (x: i32)
    requires
        edge_x > primary_center_x ==> edge_x >= i32::MIN + 10,
        edge_x <= primary_center_x ==> edge_x <= i32::MAX - 10,
    ensures
        x == (if edge_x > primary_center_x { edge_x - 10 } else { edge_x + 10 }),
{
    if edge_x > primary_center_x {
        edge_x - 10
    } else {
        edge_x + 10
    }
}

} // verus!
