//! A local mouse move while the focus is local, in three steps around the
//! work only the platform can do: the takeover check, the crossing to the
//! peer's screen (after which the platform moves the cursor), and the
//! handoff or the stored position.

use vstd::prelude::*;
use crate::ids::DeviceId;
use crate::input_focus::{
    cursor_jump, edge_switch_allowed, jump_defined, safe_point, safe_point_defined, stored_cursor, EdgeSwitchPlan,
    InputFocusCore, SessionCursor, TakeoverCheck, SESSION_HANDOFF_MANHATTAN_PX, SESSION_TAKEOVER_MANHATTAN_PX,
};
use crate::input_focus::jump_is_defined;

verus! {

/// How a local move goes on after its first step.
#[derive(Clone, Copy, Debug)]
pub enum LocalMoveStart {
    /// Nothing more happens for this move.
    Ignore,
    /// The move goes on. `pass_through` asks to let local input through
    /// again; `takeover` is the cursor update to send the peer when
    /// control was just taken back from it.
    Continue { pass_through: bool, takeover: Option<(DeviceId, u64)> },
}

/// Where a local move ends when the focus stays local.
#[derive(Clone, Copy, Debug)]
pub enum LocalMoveSettle {
    /// Another mouse took over here: the cursor goes back to `(x, y)`.
    Handoff { x: i32, y: i32 },
    /// The position stays; `sync` is the session cursor update to send.
    Stay { sync: Option<(DeviceId, u64)> },
}

/// The state after control is taken back at `(sx, sy)`: the position is
/// stored under the next sequence number and the peer no longer drives.
pub open spec fn taken_back(s: InputFocusCore, sx: i32, sy: i32) -> InputFocusCore {
    match s.local_device {
        Some(d) => InputFocusCore {
            cursor: SessionCursor {
                peer_controls_us: false,
                ..stored_cursor(s.cursor, d, sx, sy, (s.cursor.seq + 1) as u64)
            },
            ..s
        },
        None => s,
    }
}

/// The cursor update that storing a local position gives: the local
/// device and the next sequence number.
pub open spec fn next_update(s: InputFocusCore) -> Option<(DeviceId, u64)> {
    match s.local_device {
        Some(d) => Some((d, (s.cursor.seq + 1) as u64)),
        None => None,
    }
}

/// Whether the local position is stored and sent: a session runs and the
/// sequence number can still grow.
pub open spec fn position_noted(s: InputFocusCore) -> bool {
    s.active_peer is Some && s.cursor.seq < u64::MAX
}

/// The state after the local position `(sx, sy)` is noted.
pub open spec fn noted(s: InputFocusCore, sx: i32, sy: i32) -> InputFocusCore {
    if position_noted(s) {
        match s.local_device {
            Some(d) => InputFocusCore { cursor: stored_cursor(s.cursor, d, sx, sy, (s.cursor.seq + 1) as u64), ..s },
            None => s,
        }
    } else {
        s
    }
}

/// Whether a move to `(sx, sy)` means another physical mouse took over
/// here (see [`InputFocusCore::handoff_target`]).
pub open spec fn handoff_due(s: InputFocusCore, approaching_exit: bool, sx: i32, sy: i32) -> bool {
    &&& jump_defined(sx, sy, s.cursor.x, s.cursor.y)
    &&& s.cursor.ready
    &&& !approaching_exit
    &&& s.local_device is Some
    &&& s.cursor.host == s.local_device
    &&& cursor_jump(sx, sy, s.cursor.x, s.cursor.y) > SESSION_HANDOFF_MANHATTAN_PX
}

impl InputFocusCore {
    /// The first step of a local move to `(sx, sy)`. A locked focus
    /// ignores it. While the peer drives this screen, a move closer than
    /// `SESSION_TAKEOVER_MANHATTAN_PX` to the session cursor (or too far
    /// to measure) is ignored, and a farther one takes control back when a
    /// session runs. Otherwise the move goes on and local input is let
    /// through.
    pub fn begin_local_move(&mut self, sx: i32, sy: i32) -> (r: LocalMoveStart)
        ensures
            old(self).focus.lock_mode ==> r == LocalMoveStart::Ignore && *final(self) == *old(self),
            !old(self).focus.lock_mode && !old(self).cursor.peer_controls_us ==> r == (LocalMoveStart::Continue {
                pass_through: true,
                takeover: None,
            }) && *final(self) == *old(self),
            !old(self).focus.lock_mode && old(self).cursor.peer_controls_us && !(jump_defined(
                sx,
                sy,
                old(self).cursor.x,
                old(self).cursor.y,
            ) && cursor_jump(sx, sy, old(self).cursor.x, old(self).cursor.y) >= SESSION_TAKEOVER_MANHATTAN_PX)
                ==> r == LocalMoveStart::Ignore && *final(self) == *old(self),
            !old(self).focus.lock_mode && old(self).cursor.peer_controls_us && jump_defined(
                sx,
                sy,
                old(self).cursor.x,
                old(self).cursor.y,
            ) && cursor_jump(sx, sy, old(self).cursor.x, old(self).cursor.y) >= SESSION_TAKEOVER_MANHATTAN_PX ==> {
                if position_noted(*old(self)) {
                    &&& r == (LocalMoveStart::Continue { pass_through: true, takeover: next_update(*old(self)) })
                    &&& *final(self) == taken_back(*old(self), sx, sy)
                } else {
                    &&& r == (LocalMoveStart::Continue {
                        pass_through: old(self).active_peer is Some,
                        takeover: None,
                    })
                    &&& *final(self) == *old(self)
                }
            },
    {
        if self.focus.lock_mode {
            return LocalMoveStart::Ignore;
        }
        if !self.cursor.peer_controls_us {
            return LocalMoveStart::Continue { pass_through: true, takeover: None };
        }
        if !jump_is_defined(sx, sy, self.cursor.x, self.cursor.y) {
            return LocalMoveStart::Ignore;
        }
        match self.takeover_check(sx, sy) {
            TakeoverCheck::TakeBack => {
                if self.active_peer.is_some() && self.cursor.seq < u64::MAX {
                    let takeover = self.take_control(sx, sy, true);
                    LocalMoveStart::Continue { pass_through: true, takeover }
                } else {
                    LocalMoveStart::Continue { pass_through: self.active_peer.is_some(), takeover: None }
                }
            },
            _ => LocalMoveStart::Ignore,
        }
    }

    /// The crossing check of a local move: when the cursor hit the edge
    /// toward the peer (`edge_hit`) and the middle of the clip rectangle
    /// fits, the switch is planned as in [`InputFocusCore::plan_edge_switch`];
    /// otherwise nothing happens.
    pub fn plan_local_edge(
        &mut self,
        edge_hit: bool,
        entry: (i32, i32),
        clip: (i32, i32, u32, u32),
        now_ms: u64,
    ) -> (r: Option<EdgeSwitchPlan>)
        ensures
            !(safe_point_defined(clip) && edge_switch_allowed(*old(self), edge_hit)) ==> r is None
                && *final(self) == *old(self),
            safe_point_defined(clip) && edge_switch_allowed(*old(self), edge_hit) ==> r == Some(
                EdgeSwitchPlan {
                    peer: old(self).active_peer->0,
                    safe_x: safe_point(clip).0 as i32,
                    safe_y: safe_point(clip).1 as i32,
                    entry_x: entry.0,
                    entry_y: entry.1,
                },
            ) && *final(self) == (InputFocusCore {
                remote_x: entry.0,
                remote_y: entry.1,
                return_armed: false,
                grace_since_ms: Some(now_ms),
                ..*old(self)
            }),
    {
        if !crate::input_focus::safe_point_fits(clip) {
            return None;
        }
        self.plan_edge_switch(edge_hit, entry, clip, now_ms)
    }

    /// Notes the local position `(sx, sy)` while a session runs: it is
    /// stored under the next sequence number and the update to send the
    /// peer comes back.
    pub fn note_local_position(&mut self, sx: i32, sy: i32) -> (sync: Option<(DeviceId, u64)>)
        ensures
            sync == (if position_noted(*old(self)) { next_update(*old(self)) } else { None }),
            *final(self) == noted(*old(self), sx, sy),
    {
        if self.active_peer.is_some() && self.cursor.seq < u64::MAX {
            self.update_local_cursor(sx, sy)
        } else {
            None
        }
    }

    /// The last step of a local move that kept the focus local: another
    /// mouse that took over here sends the cursor back to the session
    /// cursor; otherwise the position is noted as in
    /// [`InputFocusCore::note_local_position`]. `approaching_exit` tells
    /// whether the move heads out of the local screen (from the layout).
    pub fn settle_local_move(&mut self, approaching_exit: bool, sx: i32, sy: i32) -> (r: LocalMoveSettle)
        ensures
            handoff_due(*old(self), approaching_exit, sx, sy) ==> r == (LocalMoveSettle::Handoff {
                x: old(self).cursor.x,
                y: old(self).cursor.y,
            }) && *final(self) == *old(self),
            !handoff_due(*old(self), approaching_exit, sx, sy) ==> r == (LocalMoveSettle::Stay {
                sync: if position_noted(*old(self)) { next_update(*old(self)) } else { None },
            }) && *final(self) == noted(*old(self), sx, sy),
    {
        if jump_is_defined(sx, sy, self.cursor.x, self.cursor.y) {
            if let Some((x, y)) = self.handoff_target(approaching_exit, sx, sy) {
                return LocalMoveSettle::Handoff { x, y };
            }
        }
        let sync = self.note_local_position(sx, sy);
        LocalMoveSettle::Stay { sync }
    }
}

} // verus!
