//! Monitor geometry, the KVM monitor layout, and its wire form.

use vstd::prelude::*;
use crate::ids::{DeviceId, MonitorId, PeerId};
use crate::uuid_text::{uuid_hyphenated, uuid_parse, uuid_parse_str, uuid_to_string};

verus! {

/// A monitor rectangle in desktop coordinates.
#[derive(Clone, Copy, Debug, PartialEq, Eq, Structural)]
pub struct MonitorRect {
    pub id: MonitorId,
    pub x: i32,
    pub y: i32,
    pub width: u32,
    pub height: u32,
}

/// A side of a monitor.
#[derive(Clone, Copy, Debug, PartialEq, Eq, Structural)]
pub enum BorderSide {
    Right,
    Left,
    Top,
    Bottom,
}

/// Where the cursor leaves the local desktop and enters the remote one.
#[derive(Clone, Copy, Debug, PartialEq, Eq, Structural)]
pub struct EdgeConfig {
    pub local_exit: BorderSide,
    pub remote_entry: BorderSide,
    pub exit_local_monitor_id: Option<MonitorId>,
}

/// Layout of the local monitors and of the remote peer's monitors.
#[derive(Clone, Debug)]
pub struct MonitorLayout {
    pub local_monitors: Vec<MonitorRect>,
    pub remote_peer: PeerId,
    pub remote_virtual: MonitorRect,
    pub remote_monitors: Vec<MonitorRect>,
    pub edge: EdgeConfig,
}

/// The mathematical value of a [`MonitorLayout`].
pub struct MonitorLayoutView {
    pub local_monitors: Seq<MonitorRect>,
    pub remote_peer: PeerId,
    pub remote_virtual: MonitorRect,
    pub remote_monitors: Seq<MonitorRect>,
    pub edge: EdgeConfig,
}

impl View for MonitorLayout {
    type V = MonitorLayoutView;

    open spec fn view(&self) -> MonitorLayoutView {
        MonitorLayoutView {
            local_monitors: self.local_monitors@,
            remote_peer: self.remote_peer,
            remote_virtual: self.remote_virtual,
            remote_monitors: self.remote_monitors@,
            edge: self.edge,
        }
    }
}

impl MonitorLayout {
    /// A copy of the layout.
    pub fn clone_layout(&self) -> (r: MonitorLayout)
        ensures
            r@ == self@,
    {
        MonitorLayout {
            local_monitors: copy_rects(&self.local_monitors),
            remote_peer: self.remote_peer,
            remote_virtual: self.remote_virtual,
            remote_monitors: copy_rects(&self.remote_monitors),
            edge: self.edge,
        }
    }
}

/// A copy of a list of rectangles.
pub fn copy_rects(v: &Vec<MonitorRect>) -> (r: Vec<MonitorRect>)
    ensures
        r@ == v@,
{
    let mut r: Vec<MonitorRect> = Vec::new();
    let mut i: usize = 0;
    while i < v.len()
        invariant
            i <= v@.len(),
            r@ == v@.take(i as int),
        decreases v@.len() - i,
    {
        r.push(v[i]);
        proof {
            assert(v@.take(i + 1) =~= v@.take(i as int).push(v@[i as int]));
        }
        i = i + 1;
    }
    proof {
        assert(v@.take(v@.len() as int) =~= v@);
    }
    r
}

/// Wire form of a monitor rectangle.
#[derive(Clone, Copy, Debug, PartialEq, Eq, Structural)]
pub struct MonitorRectPayload {
    pub id: u32,
    pub x: i32,
    pub y: i32,
    pub width: u32,
    pub height: u32,
}

/// Wire form of an [`EdgeConfig`]; sides travel as their names.
#[derive(Clone, Debug)]
pub struct EdgeConfigPayload {
    pub local_exit: String,
    pub remote_entry: String,
    pub exit_local_monitor_id: Option<u32>,
}

/// Wire form of a [`MonitorLayout`].
#[derive(Clone, Debug)]
pub struct MonitorLayoutPayload {
    pub local_monitors: Vec<MonitorRectPayload>,
    pub remote_peer: u128,
    pub remote_virtual: MonitorRectPayload,
    pub remote_monitors: Vec<MonitorRectPayload>,
    pub edge: EdgeConfigPayload,
}

/// The mathematical value of an [`EdgeConfigPayload`].
pub struct EdgeConfigPayloadView {
    pub local_exit: Seq<char>,
    pub remote_entry: Seq<char>,
    pub exit_local_monitor_id: Option<u32>,
}

/// The mathematical value of a [`MonitorLayoutPayload`].
pub struct MonitorLayoutPayloadView {
    pub local_monitors: Seq<MonitorRectPayload>,
    pub remote_peer: u128,
    pub remote_virtual: MonitorRectPayload,
    pub remote_monitors: Seq<MonitorRectPayload>,
    pub edge: EdgeConfigPayloadView,
}

impl View for MonitorLayoutPayload {
    type V = MonitorLayoutPayloadView;

    open spec fn view(&self) -> MonitorLayoutPayloadView {
        MonitorLayoutPayloadView {
            local_monitors: self.local_monitors@,
            remote_peer: self.remote_peer,
            remote_virtual: self.remote_virtual,
            remote_monitors: self.remote_monitors@,
            edge: EdgeConfigPayloadView {
                local_exit: self.edge.local_exit@,
                remote_entry: self.edge.remote_entry@,
                exit_local_monitor_id: self.edge.exit_local_monitor_id,
            },
        }
    }
}

/// Wire form of a monitor rectangle.
pub open spec fn rect_to_wire_spec(r: MonitorRect) -> MonitorRectPayload {
    MonitorRectPayload { id: r.id.0, x: r.x, y: r.y, width: r.width, height: r.height }
}

/// Monitor rectangle of a wire rectangle.
pub open spec fn rect_from_wire_spec(p: MonitorRectPayload) -> MonitorRect {
    MonitorRect { id: MonitorId(p.id), x: p.x, y: p.y, width: p.width, height: p.height }
}

/// Wire form of a sequence of rectangles, element by element.
pub open spec fn rects_to_wire_spec(s: Seq<MonitorRect>) -> Seq<MonitorRectPayload> {
    s.map_values(|r: MonitorRect| rect_to_wire_spec(r))
}

/// Rectangles of a sequence of wire rectangles, element by element.
pub open spec fn rects_from_wire_spec(s: Seq<MonitorRectPayload>) -> Seq<MonitorRect> {
    s.map_values(|p: MonitorRectPayload| rect_from_wire_spec(p))
}

/// The name a side travels as.
pub open spec fn border_name(side: BorderSide) -> Seq<char> {
    match side {
        BorderSide::Right => "Right"@,
        BorderSide::Left => "Left"@,
        BorderSide::Top => "Top"@,
        BorderSide::Bottom => "Bottom"@,
    }
}

/// The side a name stands for; any unknown name reads as `Right`.
pub open spec fn parse_border_spec(s: Seq<char>) -> BorderSide {
    if s == "Left"@ {
        BorderSide::Left
    } else if s == "Top"@ {
        BorderSide::Top
    } else if s == "Bottom"@ {
        BorderSide::Bottom
    } else {
        BorderSide::Right
    }
}

/// Wire form of a layout.
pub open spec fn layout_to_wire_spec(l: MonitorLayoutView) -> MonitorLayoutPayloadView {
    MonitorLayoutPayloadView {
        local_monitors: rects_to_wire_spec(l.local_monitors),
        remote_peer: l.remote_peer.0,
        remote_virtual: rect_to_wire_spec(l.remote_virtual),
        remote_monitors: rects_to_wire_spec(l.remote_monitors),
        edge: EdgeConfigPayloadView {
            local_exit: border_name(l.edge.local_exit),
            remote_entry: border_name(l.edge.remote_entry),
            exit_local_monitor_id: match l.edge.exit_local_monitor_id {
                Some(id) => Some(id.0),
                None => None,
            },
        },
    }
}

/// Layout of a wire layout.
pub open spec fn layout_from_wire_spec(p: MonitorLayoutPayloadView) -> MonitorLayoutView {
    MonitorLayoutView {
        local_monitors: rects_from_wire_spec(p.local_monitors),
        remote_peer: PeerId(p.remote_peer),
        remote_virtual: rect_from_wire_spec(p.remote_virtual),
        remote_monitors: rects_from_wire_spec(p.remote_monitors),
        edge: EdgeConfig {
            local_exit: parse_border_spec(p.edge.local_exit),
            remote_entry: parse_border_spec(p.edge.remote_entry),
            exit_local_monitor_id: match p.edge.exit_local_monitor_id {
                Some(id) => Some(MonitorId(id)),
                None => None,
            },
        },
    }
}

/// Wire form of one rectangle.
pub fn rect_to_wire(r: &MonitorRect) -> (p: MonitorRectPayload)
    ensures
        p == rect_to_wire_spec(*r),
{
    MonitorRectPayload { id: r.id.0, x: r.x, y: r.y, width: r.width, height: r.height }
}

/// Rectangle of one wire rectangle.
pub fn rect_from_wire(p: &MonitorRectPayload) -> (r: MonitorRect)
    ensures
        r == rect_from_wire_spec(*p),
{
    MonitorRect { id: MonitorId(p.id), x: p.x, y: p.y, width: p.width, height: p.height }
}

/// Wire form of a list of rectangles, in the same order.
pub fn rects_to_wire(rects: &[MonitorRect]) -> (out: Vec<MonitorRectPayload>)
    ensures
        out@ == rects_to_wire_spec(rects@),
{
    let mut out: Vec<MonitorRectPayload> = Vec::new();
    let mut i: usize = 0;
    while i < rects.len()
        invariant
            i <= rects@.len(),
            out@ == rects_to_wire_spec(rects@.subrange(0, i as int)),
        decreases rects@.len() - i,
    {
        out.push(rect_to_wire(&rects[i]));
        proof {
            assert(rects@.subrange(0, i + 1) == rects@.subrange(0, i as int).push(rects@[i as int]));
        }
        i = i + 1;
    }
    proof {
        assert(rects@.subrange(0, rects@.len() as int) == rects@);
    }
    out
}

/// Rectangles of a list of wire rectangles, in the same order.
pub fn rects_from_wire(payload: &[MonitorRectPayload]) -> (out: Vec<MonitorRect>)
    ensures
        out@ == rects_from_wire_spec(payload@),
{
    let mut out: Vec<MonitorRect> = Vec::new();
    let mut i: usize = 0;
    while i < payload.len()
        invariant
            i <= payload@.len(),
            out@ == rects_from_wire_spec(payload@.subrange(0, i as int)),
        decreases payload@.len() - i,
    {
        out.push(rect_from_wire(&payload[i]));
        proof {
            assert(payload@.subrange(0, i + 1) == payload@.subrange(0, i as int).push(
                payload@[i as int],
            ));
        }
        i = i + 1;
    }
    proof {
        assert(payload@.subrange(0, payload@.len() as int) == payload@);
    }
    out
}

/// The name a side travels as.
pub fn border_str(side: BorderSide) -> (s: String)
    ensures
        s@ == border_name(side),
{
    match side {
        BorderSide::Right => "Right".to_owned(),
        BorderSide::Left => "Left".to_owned(),
        BorderSide::Top => "Top".to_owned(),
        BorderSide::Bottom => "Bottom".to_owned(),
    }
}

/// The side a name stands for; any unknown name reads as `Right`.
pub fn parse_border(s: &str) -> (side: BorderSide)
    ensures
        side == parse_border_spec(s@),
{
    let owned = s.to_owned();
    if owned == "Left".to_owned() {
        BorderSide::Left
    } else if owned == "Top".to_owned() {
        BorderSide::Top
    } else if owned == "Bottom".to_owned() {
        BorderSide::Bottom
    } else {
        BorderSide::Right
    }
}

/// Wire form of a layout.
pub fn monitor_layout_to_wire(layout: &MonitorLayout) -> (p: MonitorLayoutPayload)
    ensures
        p@ == layout_to_wire_spec(layout@),
{
    let exit_id: Option<u32> = match layout.edge.exit_local_monitor_id {
        Some(id) => Some(id.0),
        None => None,
    };
    MonitorLayoutPayload {
        local_monitors: rects_to_wire(layout.local_monitors.as_slice()),
        remote_peer: layout.remote_peer.0,
        remote_virtual: rect_to_wire(&layout.remote_virtual),
        remote_monitors: rects_to_wire(layout.remote_monitors.as_slice()),
        edge: EdgeConfigPayload {
            local_exit: border_str(layout.edge.local_exit),
            remote_entry: border_str(layout.edge.remote_entry),
            exit_local_monitor_id: exit_id,
        },
    }
}

/// Layout of a wire layout; unknown side names read as `Right`.
pub fn monitor_layout_from_wire(payload: &MonitorLayoutPayload) -> (l: MonitorLayout)
    ensures
        l@ == layout_from_wire_spec(payload@),
{
    let exit_id: Option<MonitorId> = match payload.edge.exit_local_monitor_id {
        Some(id) => Some(MonitorId(id)),
        None => None,
    };
    MonitorLayout {
        local_monitors: rects_from_wire(payload.local_monitors.as_slice()),
        remote_peer: PeerId(payload.remote_peer),
        remote_virtual: rect_from_wire(&payload.remote_virtual),
        remote_monitors: rects_from_wire(payload.remote_monitors.as_slice()),
        edge: EdgeConfig {
            local_exit: parse_border(payload.edge.local_exit.as_str()),
            remote_entry: parse_border(payload.edge.remote_entry.as_str()),
            exit_local_monitor_id: exit_id,
        },
    }
}

/// Reading back the name of a side gives the side.
pub proof fn border_name_round_trip(side: BorderSide)
    ensures
        parse_border_spec(border_name(side)) == side,
{
    reveal_strlit("Right");
    reveal_strlit("Left");
    reveal_strlit("Top");
    reveal_strlit("Bottom");
    assert("Right"@.len() == 5);
    assert("Left"@.len() == 4);
    assert("Top"@.len() == 3);
    assert("Bottom"@.len() == 6);
}

/// Reading back the wire form of a list of rectangles gives the list.
pub proof fn rects_wire_round_trip(s: Seq<MonitorRect>)
    ensures
        rects_from_wire_spec(rects_to_wire_spec(s)) == s,
{
    assert(rects_from_wire_spec(rects_to_wire_spec(s)) =~= s);
}

/// Reading back the wire form of a layout gives the layout.
pub proof fn layout_wire_round_trip(l: MonitorLayoutView)
    ensures
        layout_from_wire_spec(layout_to_wire_spec(l)) == l,
{
    border_name_round_trip(l.edge.local_exit);
    border_name_round_trip(l.edge.remote_entry);
    rects_wire_round_trip(l.local_monitors);
    rects_wire_round_trip(l.remote_monitors);
}

/// Per-device monitor layouts of a workspace; each device occurs at most once.
#[derive(Clone, Debug)]
pub struct WorkspaceLayout {
    pub per_device: Vec<(DeviceId, MonitorLayout)>,
}

/// The mathematical value of a per-device layout list.
pub open spec fn per_device_view(s: Seq<(DeviceId, MonitorLayout)>) -> Seq<(DeviceId, MonitorLayoutView)> {
    s.map_values(|e: (DeviceId, MonitorLayout)| (e.0, e.1@))
}

impl View for WorkspaceLayout {
    type V = Seq<(DeviceId, MonitorLayoutView)>;

    open spec fn view(&self) -> Seq<(DeviceId, MonitorLayoutView)> {
        per_device_view(self.per_device@)
    }
}

/// Whether no device occurs twice.
pub open spec fn keys_unique<V>(s: Seq<(DeviceId, V)>) -> bool {
    forall|i: int, j: int| 0 <= i < j < s.len() ==> s[i].0 != s[j].0
}

/// Whether `d` occurs in the list.
pub open spec fn has_key<V>(s: Seq<(DeviceId, V)>, d: DeviceId) -> bool {
    exists|i: int| 0 <= i < s.len() && s[i].0 == d
}

/// The list after setting the entry of `d` to `v`: replaced in place when
/// `d` occurs, appended otherwise.
pub open spec fn set_entry<V>(s: Seq<(DeviceId, V)>, d: DeviceId, v: V) -> Seq<(DeviceId, V)> {
    if has_key(s, d) {
        let i = choose|i: int| 0 <= i < s.len() && s[i].0 == d;
        s.update(i, (d, v))
    } else {
        s.push((d, v))
    }
}

/// The value stored for `d`, if any.
pub open spec fn get_entry<V>(s: Seq<(DeviceId, V)>, d: DeviceId) -> Option<V> {
    if has_key(s, d) {
        let i = choose|i: int| 0 <= i < s.len() && s[i].0 == d;
        Some(s[i].1)
    } else {
        None
    }
}

impl WorkspaceLayout {
    /// No layout for any device.
    pub fn empty() -> (l: WorkspaceLayout)
        ensures
            l@ == Seq::<(DeviceId, MonitorLayoutView)>::empty(),
    {
        WorkspaceLayout { per_device: Vec::new() }
    }

    /// Whether no device has two entries.
    pub fn keys_are_unique(&self) -> (b: bool)
        ensures
            b == keys_unique(self@),
    {
        let n = self.per_device.len();
        let mut i: usize = 0;
        while i < n
            invariant
                n == self@.len(),
                i <= n,
                forall|a: int, b: int| 0 <= a < i && a < b < n ==> self@[a].0 != self@[b].0,
            decreases n - i,
        {
            let mut j: usize = i + 1;
            while j < n
                invariant
                    n == self@.len(),
                    i < n,
                    i + 1 <= j <= n,
                    forall|a: int, b: int| 0 <= a < i && a < b < n ==> self@[a].0 != self@[b].0,
                    forall|b: int| i < b < j ==> self@[i as int].0 != self@[b].0,
                decreases n - j,
            {
                if self.per_device[i].0 == self.per_device[j].0 {
                    assert(self@[i as int].0 == self@[j as int].0);
                    return false;
                }
                j = j + 1;
            }
            i = i + 1;
        }
        true
    }

    /// Index of the entry of `d`, if any.
    pub fn find(&self, d: DeviceId) -> (r: Option<usize>)
        requires
            keys_unique(self@),
        ensures
            match r {
                Some(i) => i < self@.len() && self@[i as int].0 == d,
                None => !has_key(self@, d),
            },
    {
        let mut i: usize = 0;
        while i < self.per_device.len()
            invariant
                i <= self.per_device@.len(),
                forall|k: int| 0 <= k < i ==> self@[k].0 != d,
            decreases self.per_device@.len() - i,
        {
            if self.per_device[i].0 == d {
                return Some(i);
            }
            i = i + 1;
        }
        None
    }

    /// The layout stored for `d`, if any.
    pub fn get(&self, d: DeviceId) -> (r: Option<&MonitorLayout>)
        requires
            keys_unique(self@),
        ensures
            match r {
                Some(l) => get_entry(self@, d) == Some(l@),
                None => get_entry(self@, d) is None,
            },
    {
        match self.find(d) {
            Some(i) => {
                proof {
                    let j = choose|j: int| 0 <= j < self@.len() && self@[j].0 == d;
                    assert(j == i);
                }
                Some(&self.per_device[i].1)
            },
            None => None,
        }
    }

    /// Stores `layout` for `d`, replacing any earlier one.
    pub fn set(&mut self, d: DeviceId, layout: MonitorLayout)
        requires
            keys_unique(old(self)@),
        ensures
            keys_unique(final(self)@),
            final(self)@ == set_entry(old(self)@, d, layout@),
    {
        let ghost lv = layout@;
        match self.find(d) {
            Some(i) => {
                proof {
                    let j = choose|j: int| 0 <= j < old(self)@.len() && old(self)@[j].0 == d;
                    assert(j == i);
                }
                self.per_device.set(i, (d, layout));
                assert(self@ =~= old(self)@.update(i as int, (d, lv)));
            },
            None => {
                self.per_device.push((d, layout));
                assert(self@ =~= old(self)@.push((d, lv)));
            },
        }
    }
}

/// Wire form of a [`WorkspaceLayout`]: devices travel as UUID text.
#[derive(Clone, Debug)]
pub struct WorkspaceLayoutPayload {
    pub per_device: Vec<(String, MonitorLayoutPayload)>,
}

/// The mathematical value of the entries of a [`WorkspaceLayoutPayload`].
pub open spec fn payload_entries(s: Seq<(String, MonitorLayoutPayload)>) -> Seq<(Seq<char>, MonitorLayoutPayloadView)> {
    s.map_values(|e: (String, MonitorLayoutPayload)| (e.0@, e.1@))
}

/// Wire entries of per-device layouts, in the same order.
pub open spec fn layout_to_payload_spec(l: Seq<(DeviceId, MonitorLayoutView)>) -> Seq<(Seq<char>, MonitorLayoutPayloadView)> {
    l.map_values(|e: (DeviceId, MonitorLayoutView)| (uuid_hyphenated(e.0.0), layout_to_wire_spec(e.1)))
}

/// Per-device layouts of wire entries: entries are taken in order, a later
/// one for the same device replacing an earlier one, and entries whose key
/// does not parse as a UUID are skipped.
pub open spec fn layout_from_payload_spec(e: Seq<(Seq<char>, MonitorLayoutPayloadView)>) -> Seq<(DeviceId, MonitorLayoutView)>
    decreases e.len(),
{
    if e.len() == 0 {
        Seq::empty()
    } else {
        let acc = layout_from_payload_spec(e.drop_last());
        match uuid_parse(e.last().0) {
            Some(v) => set_entry(acc, DeviceId(v), layout_from_wire_spec(e.last().1)),
            None => acc,
        }
    }
}

/// Wire form of a workspace layout.
pub fn layout_to_payload(layout: &WorkspaceLayout) -> (p: WorkspaceLayoutPayload)
    ensures
        payload_entries(p.per_device@) == layout_to_payload_spec(layout@),
{
    let mut out: Vec<(String, MonitorLayoutPayload)> = Vec::new();
    let mut i: usize = 0;
    while i < layout.per_device.len()
        invariant
            i <= layout.per_device@.len(),
            payload_entries(out@) == layout_to_payload_spec(layout@.take(i as int)),
        decreases layout.per_device@.len() - i,
    {
        let (d, ml) = &layout.per_device[i];
        let key = uuid_to_string(d.0);
        let wire = monitor_layout_to_wire(ml);
        let ghost old_out = out@;
        out.push((key, wire));
        proof {
            assert(layout@[i as int] == (layout.per_device@[i as int].0, layout.per_device@[i as int].1@));
            assert(payload_entries(out@) =~= payload_entries(old_out).push((key@, wire@)));
            assert(layout@.take(i + 1) =~= layout@.take(i as int).push(layout@[i as int]));
            assert(layout_to_payload_spec(layout@.take(i + 1)) =~= layout_to_payload_spec(layout@.take(i as int)).push(
                (uuid_hyphenated(d.0), layout_to_wire_spec(ml@)),
            ));
            assert(payload_entries(out@) =~= layout_to_payload_spec(layout@.take(i + 1)));
        }
        i = i + 1;
    }
    proof {
        assert(layout@.take(layout@.len() as int) =~= layout@);
    }
    WorkspaceLayoutPayload { per_device: out }
}

/// Workspace layout of its wire form (see [`layout_from_payload_spec`]).
pub fn layout_from_payload(payload: &WorkspaceLayoutPayload) -> (l: WorkspaceLayout)
    ensures
        keys_unique(l@),
        l@ == layout_from_payload_spec(payload_entries(payload.per_device@)),
{
    let mut layout = WorkspaceLayout::empty();
    let mut i: usize = 0;
    while i < payload.per_device.len()
        invariant
            i <= payload.per_device@.len(),
            keys_unique(layout@),
            layout@ == layout_from_payload_spec(payload_entries(payload.per_device@.take(i as int))),
        decreases payload.per_device@.len() - i,
    {
        let (key, wire) = &payload.per_device[i];
        proof {
            assert(payload_entries(payload.per_device@.take(i + 1)).drop_last() =~= payload_entries(
                payload.per_device@.take(i as int),
            ));
        }
        match uuid_parse_str(key.as_str()) {
            Some(v) => {
                layout.set(DeviceId(v), monitor_layout_from_wire(wire));
            },
            None => {},
        }
        i = i + 1;
    }
    proof {
        assert(payload.per_device@.take(payload.per_device@.len() as int) =~= payload.per_device@);
    }
    layout
}

/// Sending a workspace layout and reading it back gives the same layout,
/// given that the UUID parser reads back the hyphenated form of each
/// device (as the `uuid` crate documents).
pub proof fn workspace_layout_round_trip(l: Seq<(DeviceId, MonitorLayoutView)>)
    requires
        keys_unique(l),
        forall|i: int| 0 <= i < l.len() ==> uuid_parse(uuid_hyphenated(#[trigger] l[i].0.0)) == Some(l[i].0.0),
    ensures
        layout_from_payload_spec(layout_to_payload_spec(l)) == l,
    decreases l.len(),
{
    if l.len() > 0 {
        let p = l.drop_last();
        assert forall|a: int, b: int| 0 <= a < b < p.len() implies p[a].0 != p[b].0 by {
            assert(l[a].0 != l[b].0);
        }
        assert forall|i: int| 0 <= i < p.len() implies uuid_parse(uuid_hyphenated(#[trigger] p[i].0.0)) == Some(p[i].0.0) by {
            assert(p[i] == l[i]);
        }
        workspace_layout_round_trip(p);
        let e = layout_to_payload_spec(l);
        assert(e.drop_last() =~= layout_to_payload_spec(p));
        let last = l[l.len() - 1];
        assert(uuid_parse(uuid_hyphenated(last.0.0)) == Some(last.0.0));
        layout_wire_round_trip(last.1);
        assert(!has_key(p, last.0)) by {
            if has_key(p, last.0) {
                let k = choose|k: int| 0 <= k < p.len() && p[k].0 == last.0;
                assert(l[k].0 != l[l.len() - 1].0);
            }
        }
        assert(l =~= p.push(last));
    }
}

/// A rectangle travels with its own id, position and size: at each place
/// of the wire form of a list of rectangles stand the id, x, y, width and
/// height of the rectangle at that place, and a wire rectangle reads back
/// with the id, x, y, width and height it carries.
pub proof fn rect_wire_keeps_coordinates(rs: Seq<MonitorRect>, ps: Seq<MonitorRectPayload>)
    ensures
        rects_to_wire_spec(rs).len() == rs.len(),
        forall|i: int| 0 <= i < rs.len() ==> {
            let p = #[trigger] rects_to_wire_spec(rs)[i];
            &&& p.id == rs[i].id.0
            &&& p.x == rs[i].x
            &&& p.y == rs[i].y
            &&& p.width == rs[i].width
            &&& p.height == rs[i].height
        },
        rects_from_wire_spec(ps).len() == ps.len(),
        forall|i: int| 0 <= i < ps.len() ==> {
            let r = #[trigger] rects_from_wire_spec(ps)[i];
            &&& r.id.0 == ps[i].id
            &&& r.x == ps[i].x
            &&& r.y == ps[i].y
            &&& r.width == ps[i].width
            &&& r.height == ps[i].height
        },
{
}

} // verus!
