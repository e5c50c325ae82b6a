//! Peers seen on the local network: the registry kept from discovery
//! events, and what this device announces about itself.

use vstd::prelude::*;
use crate::events::DomainEvent;
use crate::ids::PeerId;

verus! {

/// The QUIC port of the KVM transport.
pub const WINX_KVM_PORT: u16 = 7878;

/// A peer seen on the network; `A` is a network address.
#[derive(Clone, Debug)]
pub struct DiscoveredPeer<A> {
    pub id: PeerId,
    pub username: String,
    pub fingerprint: String,
    pub addresses: Vec<A>,
}

/// What the network watcher reports.
#[derive(Clone, Debug)]
pub enum DiscoveryEvent<A> {
    Found { peer_id: PeerId, username: String, fingerprint: String, addresses: Vec<A> },
    Lost { peer_id: PeerId },
    Updated { peer_id: PeerId, username: String, addresses: Vec<A> },
}

/// What this device announces on the network.
#[derive(Clone, Debug)]
pub struct AnnounceInfo {
    pub peer_id: PeerId,
    pub username: String,
    pub fingerprint: String,
    /// The device's public key in lowercase hexadecimal.
    pub pubkey_hex: String,
    pub port: u16,
}

/// The lowercase hexadecimal digit for `n` in `0..16`.
pub open spec fn hex_char(n: int) -> char {
    if n < 10 {
        (48 + n) as char
    } else {
        (87 + n) as char
    }
}

/// Lowercase hexadecimal text of bytes, two digits per byte.
pub open spec fn hex_lower(bytes: Seq<u8>) -> Seq<char> {
    Seq::new(
        2 * bytes.len(),
        |i: int|
            if i % 2 == 0 {
                hex_char(bytes[i / 2] as int / 16)
            } else {
                hex_char(bytes[i / 2] as int % 16)
            },
    )
}

/// Calls `hex::encode`, trusted to give the lowercase hexadecimal text of
/// the bytes, two digits per byte, as the crate documents.
#[verifier::external_body]
fn hex_encode(bytes: &[u8; 32]) -> (s: String)
    ensures
        s@ == hex_lower(bytes@),
{
    hex::encode(bytes)
}

/// What this device announces: its id, name and fingerprint, its public
/// key in hexadecimal, and the KVM port.
pub fn announce_info(peer_id: PeerId, username: String, fingerprint: String, public_key: &[u8; 32]) -> (a: AnnounceInfo)
    ensures
        a.peer_id == peer_id,
        a.username@ == username@,
        a.fingerprint@ == fingerprint@,
        a.pubkey_hex@ == hex_lower(public_key@),
        a.port == WINX_KVM_PORT,
{
    AnnounceInfo { peer_id, username, fingerprint, pubkey_hex: hex_encode(public_key), port: WINX_KVM_PORT }
}

/// The announce made after a network change: only the id and the port
/// are set.
pub fn reannounce_info(peer_id: PeerId) -> (a: AnnounceInfo)
    ensures
        a.peer_id == peer_id,
        a.username@.len() == 0,
        a.fingerprint@.len() == 0,
        a.pubkey_hex@.len() == 0,
        a.port == WINX_KVM_PORT,
{
    AnnounceInfo { peer_id, username: String::new(), fingerprint: String::new(), pubkey_hex: String::new(), port: WINX_KVM_PORT }
}

/// Whether no peer id occurs twice.
pub open spec fn registry_wf<A>(s: Seq<DiscoveredPeer<A>>) -> bool {
    forall|i: int, j: int| 0 <= i < j < s.len() ==> s[i].id != s[j].id
}

/// The ids of the peers, in order.
pub open spec fn peer_ids<A>(s: Seq<DiscoveredPeer<A>>) -> Seq<PeerId> {
    s.map_values(|p: DiscoveredPeer<A>| p.id)
}

/// Whether the registry has a peer with this id.
pub open spec fn has_peer<A>(s: Seq<DiscoveredPeer<A>>, id: PeerId) -> bool {
    exists|i: int| 0 <= i < s.len() && s[i].id == id
}

/// Index of the peer with this id (meaningful when there is one).
pub open spec fn peer_index<A>(s: Seq<DiscoveredPeer<A>>, id: PeerId) -> int {
    choose|i: int| 0 <= i < s.len() && s[i].id == id
}

/// The registry once `p` appeared: it replaces the peer with its id, or is
/// added at the end.
pub open spec fn with_peer<A>(s: Seq<DiscoveredPeer<A>>, p: DiscoveredPeer<A>) -> Seq<DiscoveredPeer<A>> {
    if has_peer(s, p.id) {
        s.update(peer_index(s, p.id), p)
    } else {
        s.push(p)
    }
}

/// The registry once the peer with this id disappeared.
pub open spec fn without_peer<A>(s: Seq<DiscoveredPeer<A>>, id: PeerId) -> Seq<DiscoveredPeer<A>> {
    if has_peer(s, id) {
        s.remove(peer_index(s, id))
    } else {
        s
    }
}

/// The peers seen on the network, at most one per id.
pub struct DiscoveryRegistry<A> {
    peers: Vec<DiscoveredPeer<A>>,
}

impl<A> View for DiscoveryRegistry<A> {
    type V = Seq<DiscoveredPeer<A>>;

    closed spec fn view(&self) -> Seq<DiscoveredPeer<A>> {
        self.peers@
    }
}

impl<A> DiscoveryRegistry<A> {
    /// No peer seen.
    pub fn new() -> (r: Self)
        ensures
            r@.len() == 0,
    {
        DiscoveryRegistry { peers: Vec::new() }
    }

    /// Whether no peer id occurs twice.
    pub open spec fn wf(&self) -> bool {
        registry_wf(self@)
    }

    fn index_of(&self, id: PeerId) -> (r: Option<usize>)
        requires
            self.wf(),
        ensures
            r matches Some(i) ==> i < self@.len() && i == peer_index(self@, id) && self@[i as int].id == id,
            r is None <==> !has_peer(self@, id),
    {
        let mut i: usize = 0;
        while i < self.peers.len()
            invariant
                i <= self.peers@.len(),
                registry_wf(self@),
                forall|k: int| 0 <= k < i ==> self@[k].id != id,
            decreases self.peers@.len() - i,
        {
            if self.peers[i].id == id {
                proof {
                    let c = peer_index(self@, id);
                    assert(0 <= c < self@.len() && self@[c].id == id);
                    if c != i as int && c > i {
                        assert(self@[i as int].id != self@[c].id);
                    }
                }
                return Some(i);
            }
            i = i + 1;
        }
        None
    }

    /// The peer with this id, if any.
    pub fn get(&self, id: PeerId) -> (r: Option<&DiscoveredPeer<A>>)
        requires
            self.wf(),
        ensures
            has_peer(self@, id) ==> r == Some(&self@[peer_index(self@, id)]),
            !has_peer(self@, id) ==> r is None,
    {
        match self.index_of(id) {
            Some(i) => Some(&self.peers[i]),
            None => None,
        }
    }

    /// The peers, in order.
    pub fn peers(&self) -> (r: &Vec<DiscoveredPeer<A>>)
        ensures
            r@ == self@,
    {
        &self.peers
    }

    /// A peer appeared (or was seen again): it replaces the entry with its
    /// id, or is added.
    pub fn appeared(&mut self, p: DiscoveredPeer<A>)
        requires
            old(self).wf(),
        ensures
            final(self).wf(),
            final(self)@ == with_peer(old(self)@, p),
    {
        let ghost pp = p;
        match self.index_of(p.id) {
            Some(i) => {
                self.peers.set(i, p);
                proof {
                    assert forall|a: int, b: int| 0 <= a < b < self@.len() implies self@[a].id != self@[b].id by {
                        assert(old(self)@[a].id != old(self)@[b].id);
                    }
                }
            },
            None => {
                self.peers.push(p);
            },
        }
    }

    /// A peer left the network: its entry goes.
    pub fn disappeared(&mut self, id: PeerId)
        requires
            old(self).wf(),
        ensures
            final(self).wf(),
            final(self)@ == without_peer(old(self)@, id),
    {
        match self.index_of(id) {
            Some(i) => {
                self.peers.remove(i);
                proof {
                    assert forall|a: int, b: int| 0 <= a < b < self@.len() implies self@[a].id != self@[b].id by {
                        let oa = if a < i { a } else { a + 1 };
                        let ob = if b < i { b } else { b + 1 };
                        assert(self@[a] == old(self)@[oa] && self@[b] == old(self)@[ob]);
                        assert(old(self)@[oa].id != old(self)@[ob].id);
                    }
                }
            },
            None => {},
        }
    }

    /// Applies a discovery event and gives the event to announce. A
    /// `Found` for this very device (`own`) is ignored. A `Found` records
    /// the peer; a `Lost` removes it; an `Updated` replaces the name and
    /// addresses of a known peer, keeping its fingerprint, and is announced
    /// even for an unknown one.
    pub fn apply_event(&mut self, own: Option<PeerId>, event: DiscoveryEvent<A>) -> (r: Option<DomainEvent>)
        requires
            old(self).wf(),
        ensures
            final(self).wf(),
            match event {
                DiscoveryEvent::Found { peer_id, username, fingerprint, addresses } => if own == Some(peer_id) {
                    r is None && final(self)@ == old(self)@
                } else {
                    final(self)@ == with_peer(old(self)@, DiscoveredPeer { id: peer_id, username, fingerprint, addresses })
                        && r == Some(DomainEvent::PeerAppeared { peer_id, username, fingerprint })
                },
                DiscoveryEvent::Lost { peer_id } => final(self)@ == without_peer(old(self)@, peer_id) && r == Some(
                    DomainEvent::PeerDisappeared { peer_id },
                ),
                DiscoveryEvent::Updated { peer_id, username, addresses } => r == Some(
                    DomainEvent::PeerUpdated { peer_id, username },
                ) && if has_peer(old(self)@, peer_id) {
                    final(self)@ == with_peer(
                        old(self)@,
                        DiscoveredPeer {
                            id: peer_id,
                            username,
                            fingerprint: old(self)@[peer_index(old(self)@, peer_id)].fingerprint,
                            addresses,
                        },
                    )
                } else {
                    final(self)@ == old(self)@
                },
            },
    {
        match event {
            DiscoveryEvent::Found { peer_id, username, fingerprint, addresses } => {
                if own == Some(peer_id) {
                    return None;
                }
                let ev = DomainEvent::PeerAppeared { peer_id, username: username.clone(), fingerprint: fingerprint.clone() };
                self.appeared(DiscoveredPeer { id: peer_id, username, fingerprint, addresses });
                Some(ev)
            },
            DiscoveryEvent::Lost { peer_id } => {
                self.disappeared(peer_id);
                Some(DomainEvent::PeerDisappeared { peer_id })
            },
            DiscoveryEvent::Updated { peer_id, username, addresses } => {
                let ev = DomainEvent::PeerUpdated { peer_id, username: username.clone() };
                let fp = match self.get(peer_id) {
                    Some(existing) => Some(existing.fingerprint.clone()),
                    None => None,
                };
                match fp {
                    Some(fingerprint) => {
                        self.appeared(DiscoveredPeer { id: peer_id, username, fingerprint, addresses });
                    },
                    None => {},
                }
                Some(ev)
            },
        }
    }
}

impl<A: Copy> DiscoveryRegistry<A> {
    /// The first address of the peer with this id, if it is known and has one.
    pub fn first_address(&self, id: PeerId) -> (r: Option<A>)
        requires
            self.wf(),
        ensures
            r == (if has_peer(self@, id) && self@[peer_index(self@, id)].addresses@.len() > 0 {
                Some(self@[peer_index(self@, id)].addresses@[0])
            } else {
                None
            }),
    {
        match self.get(id) {
            None => None,
            Some(p) => {
                if p.addresses.len() > 0 {
                    Some(p.addresses[0])
                } else {
                    None
                }
            },
        }
    }
}

/// Whether `id` is among `ids`.
pub fn contains_peer(ids: &Vec<PeerId>, id: PeerId) -> (b: bool)
    ensures
        b == ids@.contains(id),
{
    let mut i: usize = 0;
    while i < ids.len()
        invariant
            i <= ids@.len(),
            forall|k: int| 0 <= k < i ==> ids@[k] != id,
        decreases ids@.len() - i,
    {
        if ids[i] == id {
            proof {
                assert(ids@[i as int] == id);
            }
            return true;
        }
        i = i + 1;
    }
    false
}

/// Marks each seen peer (in order) with whether it is among the trusted ids.
pub fn paired_flags<A>(peers: &Vec<DiscoveredPeer<A>>, trusted_ids: &Vec<PeerId>) -> (r: Vec<bool>)
    ensures
        r@.len() == peers@.len(),
        forall|i: int| 0 <= i < peers@.len() ==> #[trigger] r@[i] == trusted_ids@.contains(peers@[i].id),
{
    let mut r: Vec<bool> = Vec::new();
    let mut i: usize = 0;
    while i < peers.len()
        invariant
            i <= peers@.len(),
            r@.len() == i,
            forall|k: int| 0 <= k < i ==> #[trigger] r@[k] == trusted_ids@.contains(peers@[k].id),
        decreases peers@.len() - i,
    {
        r.push(contains_peer(trusted_ids, peers[i].id));
        i = i + 1;
    }
    r
}

/// Starting discovery happens once while it runs: a call on a stopped
/// service marks it running and gives `true`; a call while it runs gives
/// `false` and changes nothing. A start that then fails is undone by
/// [`start_failed`].
pub fn begin_start(running: &mut bool) -> (first: bool)
    ensures
        first == !*old(running),
        *final(running),
{
    let was = *running;
    *running = true;
    !was
}

/// A start whose announce or browsing failed: the service is not running,
/// so the next start tries again.
pub fn start_failed(running: &mut bool)
    ensures
        !*final(running),
{
    *running = false;
}

/// A peer that left the network is no longer in the registry.
pub proof fn lost_peer_is_gone<A>(s: Seq<DiscoveredPeer<A>>, id: PeerId)
    requires
        registry_wf(s),
    ensures
        !has_peer(without_peer(s, id), id),
{
    if has_peer(s, id) {
        let k = peer_index(s, id);
        let t = s.remove(k);
        assert forall|i: int| 0 <= i < t.len() implies t[i].id != id by {
            let oi = if i < k { i } else { i + 1 };
            assert(t[i] == s[oi]);
            assert(s[oi].id != s[k].id);
        }
    }
}

/// A peer that appeared is in the registry, as it was reported.
pub proof fn appeared_peer_is_found<A>(s: Seq<DiscoveredPeer<A>>, p: DiscoveredPeer<A>)
    requires
        registry_wf(s),
    ensures
        has_peer(with_peer(s, p), p.id),
        with_peer(s, p)[peer_index(with_peer(s, p), p.id)] == p,
{
    let t = with_peer(s, p);
    if has_peer(s, p.id) {
        let k = peer_index(s, p.id);
        assert(t[k] == p);
    } else {
        assert(t[t.len() - 1] == p);
    }
    let j = peer_index(t, p.id);
    assert(t[j].id == p.id);
    if has_peer(s, p.id) {
        let k = peer_index(s, p.id);
        if j != k {
            assert(t[j] == s[j]);
            assert(s[j].id != s[k].id);
        }
    } else {
        if j != t.len() - 1 {
            assert(t[j] == s[j]);
        }
    }
}

} // verus!
