//! Monitor layout sync with the KVM peer over the data stream: what an
//! announce of the peer's monitors, or a shared layout, changes here.

use vstd::prelude::*;
use crate::events::DomainEvent;
use crate::ids::PeerId;
use crate::layout::{
    layout_from_wire_spec, layout_to_wire_spec, monitor_layout_from_wire, monitor_layout_to_wire, rects_from_wire,
    rects_from_wire_spec, rects_to_wire, rects_to_wire_spec, MonitorLayout, MonitorLayoutPayload, MonitorRect,
    MonitorRectPayload,
};

verus! {

/// The kinds of payload the data stream carries.
#[derive(Clone, Copy, Debug, PartialEq, Eq, Structural)]
pub enum PayloadTag {
    PeerMonitorsAnnounce,
    KvmLayoutShare,
    Clipboard,
    Heartbeat,
    HeartbeatAck,
    Input,
    OpenStream,
    CloseStream,
    FocusSwitch,
    SessionCursorSync,
    SessionInputTakeover,
}

/// The stable name of a payload kind; the session-cursor kinds are not
/// named and read `Unknown`.
pub open spec fn payload_name(t: PayloadTag) -> Seq<char> {
    match t {
        PayloadTag::PeerMonitorsAnnounce => "PeerMonitorsAnnounce"@,
        PayloadTag::KvmLayoutShare => "KvmLayoutShare"@,
        PayloadTag::Clipboard => "Clipboard"@,
        PayloadTag::Heartbeat => "Heartbeat"@,
        PayloadTag::HeartbeatAck => "HeartbeatAck"@,
        PayloadTag::Input => "Input"@,
        PayloadTag::OpenStream => "OpenStream"@,
        PayloadTag::CloseStream => "CloseStream"@,
        PayloadTag::FocusSwitch => "FocusSwitch"@,
        _ => "Unknown"@,
    }
}

/// The stable name of a payload kind (see [`payload_name`]).
pub fn payload_kind(t: PayloadTag) -> (s: &'static str)
    ensures
        s@ == payload_name(t),
{
    match t {
        PayloadTag::PeerMonitorsAnnounce => "PeerMonitorsAnnounce",
        PayloadTag::KvmLayoutShare => "KvmLayoutShare",
        PayloadTag::Clipboard => "Clipboard",
        PayloadTag::Heartbeat => "Heartbeat",
        PayloadTag::HeartbeatAck => "HeartbeatAck",
        PayloadTag::Input => "Input",
        PayloadTag::OpenStream => "OpenStream",
        PayloadTag::CloseStream => "CloseStream",
        PayloadTag::FocusSwitch => "FocusSwitch",
        _ => "Unknown",
    }
}

/// The announcement of a peer's monitors: none for an empty list (it is
/// ignored), otherwise their number.
pub fn peer_monitors_event(peer: PeerId, monitors: &Vec<MonitorRect>) -> (r: Option<DomainEvent>)
    ensures
        monitors@.len() == 0 ==> r is None,
        monitors@.len() > 0 ==> r == Some(DomainEvent::PeerMonitorsUpdated { peer_id: peer, monitor_count: monitors@.len() as usize }),
{
    if monitors.len() == 0 {
        None
    } else {
        Some(DomainEvent::PeerMonitorsUpdated { peer_id: peer, monitor_count: monitors.len() })
    }
}

/// What a layout payload from the peer asks of the caller.
#[derive(Clone, Debug)]
pub struct LayoutSyncEffect {
    /// The peer's monitors to persist (and announce), if any.
    pub store: Option<Vec<MonitorRect>>,
    /// The event announcing them.
    pub event: Option<DomainEvent>,
    /// Whether the edges and the mouse scale of the active layout are to
    /// be derived again from its geometry.
    pub recompute_edges: bool,
}

/// Whether the active layout follows payloads from `peer`: input is on
/// and the session runs with it.
pub open spec fn follows_peer(enabled: bool, active: Option<PeerId>, peer: PeerId) -> bool {
    enabled && active == Some(peer)
}

/// The peer announced its monitors. A non-empty list is persisted and
/// announced. When the active layout follows the peer, its remote monitors
/// become the announced ones; the edges are derived again only when it
/// had none before (mid-session they are kept).
pub fn on_monitors_announce(
    active_layout: &mut Option<MonitorLayout>,
    enabled: bool,
    active: Option<PeerId>,
    peer: PeerId,
    wire: &Vec<MonitorRectPayload>,
) -> (r: LayoutSyncEffect)
    ensures
        ({
            let monitors = rects_from_wire_spec(wire@);
            &&& (monitors.len() == 0 ==> r.store is None && r.event is None)
            &&& (monitors.len() > 0 ==> (r.store matches Some(m) && m@ == monitors) && r.event == Some(
                DomainEvent::PeerMonitorsUpdated { peer_id: peer, monitor_count: monitors.len() as usize },
            ))
            &&& if follows_peer(enabled, active, peer) && (*old(active_layout)) is Some {
                &&& (*final(active_layout)) is Some
                &&& (*final(active_layout))->0@ == (crate::layout::MonitorLayoutView {
                    remote_monitors: monitors,
                    ..(*old(active_layout))->0@
                })
                &&& r.recompute_edges == ((*old(active_layout))->0@.remote_monitors.len() == 0)
            } else {
                &&& *final(active_layout) == *old(active_layout)
                &&& !r.recompute_edges
            }
        }),
{
    let monitors = rects_from_wire(wire.as_slice());
    let event = peer_monitors_event(peer, &monitors);
    let store = if monitors.len() == 0 {
        None
    } else {
        Some(monitors.clone())
    };
    let mut recompute = false;
    if enabled && active == Some(peer) {
        match active_layout {
            Some(layout) => {
                let was_empty = layout.remote_monitors.len() == 0;
                layout.remote_monitors = monitors;
                recompute = was_empty;
            },
            None => {},
        }
    }
    LayoutSyncEffect { store, event, recompute_edges: recompute }
}

/// The peer shared its layout: its local monitors are the peer's
/// monitors. They are persisted and announced when there are any; when
/// the active layout follows the peer, its remote monitors become them and
/// the edges are derived again.
pub fn on_layout_share(
    active_layout: &mut Option<MonitorLayout>,
    enabled: bool,
    active: Option<PeerId>,
    peer: PeerId,
    wire: &MonitorLayoutPayload,
) -> (r: LayoutSyncEffect)
    ensures
        ({
            let monitors = layout_from_wire_spec(wire@).local_monitors;
            &&& (monitors.len() == 0 ==> r.store is None && r.event is None)
            &&& (monitors.len() > 0 ==> (r.store matches Some(m) && m@ == monitors) && r.event == Some(
                DomainEvent::PeerMonitorsUpdated { peer_id: peer, monitor_count: monitors.len() as usize },
            ))
            &&& if follows_peer(enabled, active, peer) && (*old(active_layout)) is Some {
                &&& (*final(active_layout)) is Some
                &&& (*final(active_layout))->0@ == (crate::layout::MonitorLayoutView {
                    remote_monitors: monitors,
                    ..(*old(active_layout))->0@
                })
                &&& r.recompute_edges
            } else {
                &&& *final(active_layout) == *old(active_layout)
                &&& !r.recompute_edges
            }
        }),
{
    let received = monitor_layout_from_wire(wire);
    let event = peer_monitors_event(peer, &received.local_monitors);
    let store = if received.local_monitors.len() == 0 {
        None
    } else {
        Some(received.local_monitors.clone())
    };
    let mut recompute = false;
    if enabled && active == Some(peer) {
        match active_layout {
            Some(layout) => {
                layout.remote_monitors = received.local_monitors;
                recompute = true;
            },
            None => {},
        }
    }
    LayoutSyncEffect { store, event, recompute_edges: recompute }
}

/// What announcing the local monitors to the peer sends: the monitors,
/// and the layout saved for the peer when there is one.
pub fn announce_payloads(local_monitors: &Vec<MonitorRect>, saved: Option<&MonitorLayout>) -> (r: (
    Vec<MonitorRectPayload>,
    Option<MonitorLayoutPayload>,
))
    ensures
        r.0@ == rects_to_wire_spec(local_monitors@),
        saved is None ==> r.1 is None,
        saved matches Some(l) ==> (r.1 matches Some(p) && p@ == layout_to_wire_spec(l@)),
{
    let monitors = rects_to_wire(local_monitors.as_slice());
    let layout = match saved {
        Some(l) => Some(monitor_layout_to_wire(l)),
        None => None,
    };
    (monitors, layout)
}

} // verus!
