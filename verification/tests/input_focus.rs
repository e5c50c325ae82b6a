use winx_application::events::{DomainEvent, FocusTarget, HotkeyAction};
use winx_application::ids::{DeviceId, PeerId};
use winx_application::input_focus::{
    estimate_step_fits, jump_is_defined, safe_point_fits, CursorSyncAction, InputFocusCore, TakeoverCheck,
};
use winx_application::input_session::{
    lab_ping_event, local_return_x, mirror_duration_secs, remote_clip_rect, mirror_precheck, mirror_seconds_left, mirror_status, refresh_geometry,
    remote_route, test_click_events, EnableStep, RemoteRoute,
};
use winx_application::input_wire::{InputEvent, MouseButton};
use winx_application::layout::MonitorRect;
use winx_application::ids::MonitorId;
use winx_application::local_move::{LocalMoveSettle, LocalMoveStart};

fn active_core(peer: PeerId) -> InputFocusCore {
    let mut c = InputFocusCore::new();
    c.active_peer = Some(peer);
    c.enabled = true;
    c.local_device = Some(DeviceId(1));
    c
}

// A layout of one 1920x1080 monitor with the peer on the right reports the
// edge hit at (1919, 540); the hit is given here.
#[test]
fn crossing_right_edge_switches_focus_to_remote() {
    let peer = PeerId(2);
    let mut c = active_core(peer);
    let plan = c.plan_edge_switch(true, (0, 540), (1919, 539, 4, 4), 1_000).expect("switch planned");
    assert_eq!(plan.peer, peer);
    assert_eq!((plan.safe_x, plan.safe_y), (1921, 541));
    let (stored, events) = c.commit_edge_switch(peer, 1919, 540);
    assert_eq!(stored, Some((DeviceId(1), 1)));
    assert_eq!(c.focus.target, FocusTarget::Remote(peer));
    assert!(matches!(events[0], DomainEvent::FocusSwitched { from: FocusTarget::Local, .. }));
    assert!(matches!(events[1], DomainEvent::InputBlocked { blocked: true, .. }));
    assert_eq!((c.remote_x, c.remote_y), (0, 540));
    assert!(c.in_grace(1_100));
    assert!(!c.in_grace(1_500));
}

#[test]
fn lock_mode_prevents_edge_switch() {
    let peer = PeerId(2);
    let mut c = active_core(peer);
    c.focus.lock_mode = true;
    assert!(c.plan_edge_switch(true, (0, 540), (1919, 539, 4, 4), 0).is_none());
    assert_eq!(c.focus.target, FocusTarget::Local);
}

#[test]
fn no_switch_without_session_or_when_already_there() {
    let mut c = InputFocusCore::new();
    assert!(c.plan_edge_switch(true, (0, 0), (0, 0, 4, 4), 0).is_none());
    let peer = PeerId(2);
    let mut c = active_core(peer);
    c.focus.target = FocusTarget::Remote(peer);
    assert!(c.plan_edge_switch(true, (0, 0), (0, 0, 4, 4), 0).is_none());
    let mut c = active_core(peer);
    assert!(c.plan_edge_switch(false, (0, 0), (0, 0, 4, 4), 0).is_none());
}

#[test]
fn safe_point_falls_back_for_huge_clip() {
    let mut c = active_core(PeerId(2));
    let plan = c.plan_edge_switch(true, (0, 0), (10, 20, u32::MAX, u32::MAX), 0).unwrap();
    assert_eq!((plan.safe_x, plan.safe_y), (10 + 960, 20 + 540));
}

#[test]
fn hotkeys() {
    let peer = PeerId(2);
    let mut c = active_core(peer);
    c.focus.target = FocusTarget::Remote(peer);
    let ev = c.handle_hotkey(HotkeyAction::ToggleLock);
    assert!(c.focus.lock_mode);
    assert_eq!(ev.len(), 1);
    let ev = c.handle_hotkey(HotkeyAction::PanicLocal);
    assert_eq!(c.focus.target, FocusTarget::Local);
    assert!(c.focus.lock_mode);
    assert_eq!(ev.len(), 3);
    assert!(matches!(ev[2], DomainEvent::HotkeyTriggered { action: HotkeyAction::PanicLocal }));
    c.focus.target = FocusTarget::Remote(peer);
    let ev = c.handle_hotkey(HotkeyAction::ForceReset);
    assert_eq!(c.focus.target, FocusTarget::Local);
    assert!(!c.focus.lock_mode);
    assert_eq!(ev.len(), 1);
}

#[test]
fn remote_estimate_is_clamped_to_the_remote_screen() {
    let mut c = active_core(PeerId(2));
    c.set_remote_estimate(100, 100);
    c.advance_remote_estimate(-500, 50, 256, 1920, 1080);
    assert_eq!((c.remote_x, c.remote_y), (0, 150));
    c.advance_remote_estimate(5000, 5000, 512, 1920, 1080);
    assert_eq!((c.remote_x, c.remote_y), (1919, 1079));
}

#[test]
fn way_back_arms_inland_then_fires_at_the_edge() {
    let peer = PeerId(2);
    let mut c = active_core(peer);
    c.focus.target = FocusTarget::Remote(peer);
    assert!(!c.remote_return_check(true, true, true));
    assert!(!c.return_armed);
    assert!(!c.remote_return_check(false, false, true));
    assert!(!c.remote_return_check(false, true, false));
    assert!(c.return_armed);
    assert!(c.remote_return_check(false, false, true));
    assert!(c.begin_switch_back(true));
    assert!(!c.return_armed);
    let (stored, events) = c.finish_switch_back(5, 6);
    assert_eq!(stored, Some((DeviceId(1), 1)));
    assert_eq!(c.focus.target, FocusTarget::Local);
    assert!(matches!(events[1], DomainEvent::InputBlocked { blocked: false, peer_id: None }));
}

#[test]
fn way_back_without_layout_stays_armed() {
    let peer = PeerId(2);
    let mut c = active_core(peer);
    c.focus.target = FocusTarget::Remote(peer);
    c.rearm_return();
    assert!(!c.begin_switch_back(false));
    assert!(c.return_armed);
}

#[test]
fn takeover_and_handoff_thresholds() {
    let mut c = active_core(PeerId(2));
    assert_eq!(c.takeover_check(0, 0), TakeoverCheck::NotControlled);
    c.cursor.peer_controls_us = true;
    c.cursor.x = 100;
    c.cursor.y = 100;
    assert_eq!(c.takeover_check(105, 104), TakeoverCheck::Ignore);
    assert_eq!(c.takeover_check(105, 105), TakeoverCheck::TakeBack);
    c.cursor.peer_controls_us = false;
    c.cursor.ready = true;
    c.cursor.host = Some(DeviceId(1));
    assert_eq!(c.handoff_target(false, 140, 140), None);
    assert_eq!(c.handoff_target(false, 141, 140), Some((100, 100)));
    assert_eq!(c.handoff_target(true, 300, 300), None);
}

#[test]
fn cursor_sync_orders_by_sequence() {
    let peer = PeerId(2);
    let mut c = active_core(peer);
    c.cursor.peer_controls_us = true;
    assert_eq!(c.on_cursor_sync(peer, DeviceId(1), 10, 20, 3), CursorSyncAction::WarpLocal { x: 10, y: 20 });
    assert!(!c.cursor.peer_controls_us);
    assert_eq!(c.on_cursor_sync(peer, DeviceId(9), 0, 0, 3), CursorSyncAction::Ignored);
    c.focus.target = FocusTarget::Remote(peer);
    assert_eq!(c.on_cursor_sync(peer, DeviceId(9), 7, 8, 4), CursorSyncAction::TrackRemote { x: 7, y: 8 });
    assert_eq!(c.cursor.seq, 4);
    assert!(c.on_takeover(peer, DeviceId(9), 1, 1, 5));
    assert_eq!(c.focus.target, FocusTarget::Local);
    assert!(!c.on_takeover(peer, DeviceId(9), 1, 1, 5));
}

#[test]
fn session_end_resets_focus_and_cursor() {
    let peer = PeerId(2);
    let mut c = active_core(peer);
    c.focus.target = FocusTarget::Remote(peer);
    c.focus.lock_mode = true;
    c.return_armed = true;
    assert!(!c.end_session(PeerId(3), true));
    assert!(c.end_session(peer, true));
    assert_eq!(c.focus.target, FocusTarget::Local);
    assert!(!c.focus.lock_mode);
    assert!(c.active_peer.is_none());
    assert!(!c.return_armed);
    assert_eq!(c.cursor.seq, 0);
}

#[test]
fn enabling_input_control() {
    let peer = PeerId(2);
    let mut c = InputFocusCore::new();
    assert!(c.begin_enable(peer, false).is_err());
    assert_eq!(c.begin_enable(peer, true).unwrap(), EnableStep::Start);
    c.finish_enable();
    assert!(c.is_active_for_peer(peer));
    assert_eq!(c.begin_enable(peer, true).unwrap(), EnableStep::ReapplyLayout);
    assert!(mirror_precheck(&c, PeerId(3), true).is_err());
    assert_eq!(mirror_precheck(&c, peer, true).unwrap(), false);
    assert!(c.on_injected_move());
    assert!(c.cursor.peer_controls_us);
}

#[test]
fn keyboard_mirror_helpers() {
    assert_eq!(mirror_duration_secs(0), 1);
    assert_eq!(mirror_duration_secs(30), 30);
    assert_eq!(mirror_seconds_left(false, Some(5)), 0);
    assert_eq!(mirror_seconds_left(true, Some(5)), 5);
    assert_eq!(mirror_seconds_left(true, Some(u64::MAX)), 0);
    let s = mirror_status(true, Some(9), 1, 2, 3);
    assert_eq!((s.seconds_left, s.keys_sent, s.keys_hooked, s.keys_send_errors), (9, 1, 2, 3));
}

#[test]
fn routes_and_fixed_events() {
    assert_eq!(remote_route(&InputEvent::MouseMove { dx: 1, dy: 0 }), RemoteRoute::Coalesce);
    assert_eq!(remote_route(&lab_ping_event()), RemoteRoute::Send);
    assert_eq!(remote_route(&InputEvent::MouseWarpAbsolute { x: 0, y: 0 }), RemoteRoute::Drop);
    let clicks = test_click_events();
    assert_eq!(clicks.len(), 2);
    assert_eq!(clicks[0], InputEvent::MouseButton { button: MouseButton::Left, pressed: true });
    assert_eq!(remote_route(&clicks[1]), RemoteRoute::FlushThenSend);
}

#[test]
fn geometry_refresh_keeps_saved_positions() {
    let saved = vec![MonitorRect { id: MonitorId(1), x: -1920, y: 10, width: 1280, height: 720 }];
    let os = vec![
        MonitorRect { id: MonitorId(1), x: 0, y: 0, width: 1920, height: 1080 },
        MonitorRect { id: MonitorId(2), x: 1920, y: 0, width: 1024, height: 768 },
    ];
    let r = refresh_geometry(&saved, &os);
    assert_eq!(r[0], MonitorRect { id: MonitorId(1), x: -1920, y: 10, width: 1920, height: 1080 });
    assert_eq!(r[1], os[1]);
}

#[test]
fn precondition_checks() {
    assert!(jump_is_defined(0, 0, 10, 10));
    assert!(!jump_is_defined(i32::MIN, 0, 0, 0));
    assert!(!jump_is_defined(i32::MAX, 0, -1, 0));
    assert!(safe_point_fits((0, 0, 1920, 1080)));
    assert!(!safe_point_fits((i32::MAX, 0, 4, 4)));
    assert!(estimate_step_fits(0, 0, 10, 10, 256, 1920, 1080));
    assert!(!estimate_step_fits(0, 0, 10, 10, 256, 0, 1080));
    assert!(!estimate_step_fits(i32::MAX, 0, 10, 0, 256, 1920, 1080));
}

#[test]
fn transition_points() {
    assert_eq!(remote_clip_rect(960, 540), (958, 538, 4, 4));
    assert_eq!(local_return_x(1919, 960), 1909);
    assert_eq!(local_return_x(0, 960), 10);
}

#[test]
fn local_move_takes_control_back_and_notes_position() {
    let peer = PeerId(2);
    let mut c = active_core(peer);
    c.cursor.peer_controls_us = true;
    assert!(matches!(c.begin_local_move(3, 0), LocalMoveStart::Ignore));
    match c.begin_local_move(40, 0) {
        LocalMoveStart::Continue { pass_through, takeover } => {
            assert!(pass_through);
            assert_eq!(takeover, Some((DeviceId(1), 1)));
        },
        LocalMoveStart::Ignore => panic!("expected the takeover"),
    }
    assert!(!c.cursor.peer_controls_us);
    assert_eq!((c.cursor.x, c.cursor.seq), (40, 1));
    match c.settle_local_move(false, 45, 0) {
        LocalMoveSettle::Stay { sync } => assert_eq!(sync, Some((DeviceId(1), 2))),
        LocalMoveSettle::Handoff { .. } => panic!("no handoff for a small move"),
    }
    match c.settle_local_move(false, 500, 0) {
        LocalMoveSettle::Handoff { x, y } => assert_eq!((x, y), (45, 0)),
        LocalMoveSettle::Stay { .. } => panic!("expected a handoff"),
    }
    c.focus.lock_mode = true;
    assert!(matches!(c.begin_local_move(0, 0), LocalMoveStart::Ignore));
}

#[test]
fn local_edge_needs_a_hit_and_a_fitting_clip() {
    let peer = PeerId(2);
    let mut c = active_core(peer);
    assert!(c.plan_local_edge(false, (0, 0), (0, 0, 4, 4), 5).is_none());
    assert!(c.plan_local_edge(true, (0, 0), (i32::MAX, 0, 4, 4), 5).is_none());
    let plan = c.plan_local_edge(true, (7, 8), (100, 100, 4, 4), 5).unwrap();
    assert_eq!((plan.peer, plan.safe_x, plan.safe_y, plan.entry_x, plan.entry_y), (peer, 102, 102, 7, 8));
    assert_eq!(c.grace_since_ms, Some(5));
}
