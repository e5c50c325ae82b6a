//! Connections to trusted peers: one entry per peer, its state through
//! connecting, reconnecting and disconnecting, and which statistics are
//! worth announcing.

use vstd::prelude::*;
use crate::error::{fails_with, DomainError, DomainErrorCode};
use crate::events::{ConnectionStats, DomainEvent};
use crate::ids::{PeerId, SessionId};

verus! {

/// Reconnection attempts before a connection is given up.
pub const MAX_RECONNECT_ATTEMPTS: u32 = 3;

/// RTT change (ms) below which new statistics are not announced.
pub const STATS_RTT_DELTA_MS: u32 = 5;

/// Where a connection stands.
#[derive(Clone, Copy, Debug, PartialEq, Eq, Structural)]
pub enum ConnectionState {
    Connecting,
    Connected,
    Reconnecting { attempts: u32 },
    Disconnected,
}

/// The connection to one peer.
#[derive(Clone, Copy, Debug, PartialEq, Eq, Structural)]
pub struct Connection {
    pub id: SessionId,
    pub peer_id: PeerId,
    pub state: ConnectionState,
    pub stats: ConnectionStats,
}

/// The state after one more failed reconnection.
pub open spec fn next_reconnecting(s: ConnectionState) -> ConnectionState {
    match s {
        ConnectionState::Reconnecting { attempts } => ConnectionState::Reconnecting {
            attempts: if attempts == u32::MAX { u32::MAX } else { (attempts + 1) as u32 },
        },
        _ => ConnectionState::Reconnecting { attempts: 1 },
    }
}

impl Connection {
    /// A connection to `peer_id` being set up under `id`.
    pub fn new(peer_id: PeerId, id: SessionId) -> (c: Self)
        ensures
            c == (Connection { id, peer_id, state: ConnectionState::Connecting, stats: ConnectionStats { rtt_ms: 0, tx_bytes: 0, rx_bytes: 0, lost_packets: 0 } }),
    {
        Connection {
            id,
            peer_id,
            state: ConnectionState::Connecting,
            stats: ConnectionStats { rtt_ms: 0, tx_bytes: 0, rx_bytes: 0, lost_packets: 0 },
        }
    }

    /// Whether the connection is up.
    pub fn is_active(&self) -> (b: bool)
        ensures
            b == (self.state == ConnectionState::Connected),
    {
        self.state == ConnectionState::Connected
    }

    /// A failed reconnection: counts one more attempt.
    pub fn mark_reconnecting(&mut self)
        ensures
            *final(self) == (Connection { state: next_reconnecting(old(self).state), ..*old(self) }),
    {
        self.state = match self.state {
            ConnectionState::Reconnecting { attempts } => ConnectionState::Reconnecting {
                attempts: if attempts == u32::MAX { u32::MAX } else { attempts + 1 },
            },
            _ => ConnectionState::Reconnecting { attempts: 1 },
        };
    }
}

/// A peer this device paired with.
#[derive(Clone, Debug)]
pub struct TrustedPeer {
    pub id: PeerId,
    pub username: String,
    pub public_key: [u8; 32],
}

/// Index of the first trusted peer with this id.
pub fn find_trusted(peers: &Vec<TrustedPeer>, id: PeerId) -> (r: Option<usize>)
    ensures
        r matches Some(i) ==> i < peers@.len() && peers@[i as int].id == id && forall|j: int|
            0 <= j < i ==> peers@[j].id != id,
        r is None ==> forall|j: int| 0 <= j < peers@.len() ==> peers@[j].id != id,
{
    let mut i: usize = 0;
    while i < peers.len()
        invariant
            i <= peers@.len(),
            forall|j: int| 0 <= j < i ==> peers@[j].id != id,
        decreases peers@.len() - i,
    {
        if peers[i].id == id {
            return Some(i);
        }
        i = i + 1;
    }
    None
}

/// Index of the first trusted peer with this public key.
pub fn find_trusted_by_key(peers: &Vec<TrustedPeer>, key: &[u8; 32]) -> (r: Option<usize>)
    ensures
        r matches Some(i) ==> i < peers@.len() && peers@[i as int].public_key == *key && forall|j: int|
            0 <= j < i ==> peers@[j].public_key != *key,
        r is None ==> forall|j: int| 0 <= j < peers@.len() ==> peers@[j].public_key != *key,
{
    let mut i: usize = 0;
    while i < peers.len()
        invariant
            i <= peers@.len(),
            forall|j: int| 0 <= j < i ==> peers@[j].public_key != *key,
        decreases peers@.len() - i,
    {
        if bytes32_eq(&peers[i].public_key, key) {
            return Some(i);
        }
        i = i + 1;
    }
    None
}

/// Whether two 32-byte values are equal.
pub fn bytes32_eq(a: &[u8; 32], b: &[u8; 32]) -> (r: bool)
    ensures
        r == (*a == *b),
{
    let mut i: usize = 0;
    while i < 32
        invariant
            i <= 32,
            a@.len() == 32,
            b@.len() == 32,
            forall|k: int| 0 <= k < i ==> a@[k] == b@[k],
        decreases 32 - i,
    {
        if a[i] != b[i] {
            proof {
                assert(a@ != b@);
            }
            return false;
        }
        i = i + 1;
    }
    proof {
        broadcast use vstd::array::group_array_axioms;
        assert(*a =~= *b);
    }
    true
}

/// Whether new statistics are announced: always the first time, then
/// when the RTT moved by more than `STATS_RTT_DELTA_MS`.
pub open spec fn stats_worth_publishing(prev_rtt: Option<u32>, rtt: u32) -> bool {
    match prev_rtt {
        None => true,
        Some(p) => (if rtt >= p { rtt - p } else { p - rtt }) > STATS_RTT_DELTA_MS,
    }
}

/// Whether new statistics are announced (see [`stats_worth_publishing`]).
pub fn should_publish_stats(prev_rtt: Option<u32>, rtt: u32) -> (b: bool)
    ensures
        b == stats_worth_publishing(prev_rtt, rtt),
{
    match prev_rtt {
        None => true,
        Some(p) => {
            let d = if rtt >= p { rtt - p } else { p - rtt };
            d > STATS_RTT_DELTA_MS
        },
    }
}

/// Whether no peer has two connections.
pub open spec fn conns_wf(s: Seq<Connection>) -> bool {
    forall|i: int, j: int| 0 <= i < j < s.len() ==> s[i].peer_id != s[j].peer_id
}

/// Whether there is a connection to `p`.
pub open spec fn has_conn(s: Seq<Connection>, p: PeerId) -> bool {
    exists|i: int| 0 <= i < s.len() && s[i].peer_id == p
}

/// Index of the connection to `p` (meaningful when there is one).
pub open spec fn conn_index(s: Seq<Connection>, p: PeerId) -> int {
    choose|i: int| 0 <= i < s.len() && s[i].peer_id == p
}

/// The connection to `p` (meaningful when there is one).
pub open spec fn conn_of(s: Seq<Connection>, p: PeerId) -> Connection {
    s[conn_index(s, p)]
}

/// The connections with the one to `c.peer_id` replaced by `c`, or `c`
/// added at the end when there was none.
pub open spec fn put_conn(s: Seq<Connection>, c: Connection) -> Seq<Connection> {
    if has_conn(s, c.peer_id) {
        s.update(conn_index(s, c.peer_id), c)
    } else {
        s.push(c)
    }
}

/// Whether the connection to `p` is up.
pub open spec fn is_connected(s: Seq<Connection>, p: PeerId) -> bool {
    has_conn(s, p) && conn_of(s, p).state == ConnectionState::Connected
}

/// What a reconnection round decides for one peer.
#[derive(Clone, Copy, Debug, PartialEq, Eq, Structural)]
pub enum ReconnectStep {
    /// No such connection any more.
    Skip,
    /// Out of attempts: the connection was marked disconnected.
    GiveUp,
    /// Try again; the connection it replaces has this id.
    Retry { old_id: SessionId },
}

/// The connections of this device, at most one per peer.
pub struct ConnectionTable {
    conns: Vec<Connection>,
}

impl View for ConnectionTable {
    type V = Seq<Connection>;

    closed spec fn view(&self) -> Seq<Connection> {
        self.conns@
    }
}

impl ConnectionTable {
    /// No connection.
    pub fn new() -> (t: Self)
        ensures
            t@.len() == 0,
    {
        ConnectionTable { conns: Vec::new() }
    }

    fn index_of(&self, peer: PeerId) -> (r: Option<usize>)
        requires
            conns_wf(self@),
        ensures
            r matches Some(i) ==> i < self@.len() && i == conn_index(self@, peer) && self@[i as int].peer_id == peer,
            r is None <==> !has_conn(self@, peer),
    {
        let mut i: usize = 0;
        while i < self.conns.len()
            invariant
                i <= self.conns@.len(),
                conns_wf(self@),
                forall|k: int| 0 <= k < i ==> self@[k].peer_id != peer,
            decreases self.conns@.len() - i,
        {
            if self.conns[i].peer_id == peer {
                proof {
                    let c = conn_index(self@, peer);
                    assert(0 <= c < self@.len() && self@[c].peer_id == peer);
                    if c != i as int {
                        if c < i {
                        } else {
                            assert(self@[i as int].peer_id != self@[c].peer_id);
                        }
                    }
                }
                return Some(i);
            }
            i = i + 1;
        }
        None
    }

    /// The connection to `peer`, if any.
    pub fn get(&self, peer: PeerId) -> (r: Option<Connection>)
        requires
            conns_wf(self@),
        ensures
            r == (if has_conn(self@, peer) { Some(conn_of(self@, peer)) } else { None }),
    {
        match self.index_of(peer) {
            Some(i) => Some(self.conns[i]),
            None => None,
        }
    }

    /// Whether the connection to `peer` is up.
    pub fn is_peer_connected(&self, peer: PeerId) -> (b: bool)
        requires
            conns_wf(self@),
        ensures
            b == is_connected(self@, peer),
    {
        match self.get(peer) {
            Some(c) => c.is_active(),
            None => false,
        }
    }

    fn put(&mut self, c: Connection)
        requires
            conns_wf(old(self)@),
        ensures
            conns_wf(final(self)@),
            final(self)@ == put_conn(old(self)@, c),
    {
        match self.index_of(c.peer_id) {
            Some(i) => {
                self.conns.set(i, c);
                proof {
                    assert forall|a: int, b: int| 0 <= a < b < self@.len() implies self@[a].peer_id
                        != self@[b].peer_id by {
                        assert(old(self)@[a].peer_id != old(self)@[b].peer_id);
                    }
                }
            },
            None => {
                self.conns.push(c);
            },
        }
    }

    /// The first checks of connecting to `peer`: already connected is a
    /// no-op (`Ok(None)`); a peer missing from `trusted` is refused with
    /// `TransportPeerNotTrusted`; without a known address
    /// (`has_addr`) with `TransportConnectionFailed`. Otherwise the index
    /// of the trusted peer to connect to comes back.
    pub fn begin_connect(&self, peer: PeerId, trusted: &Vec<TrustedPeer>, has_addr: bool) -> (r: Result<
        Option<usize>,
        DomainError,
    >)
        requires
            conns_wf(self@),
        ensures
            is_connected(self@, peer) ==> r == Ok::<Option<usize>, DomainError>(None),
            !is_connected(self@, peer) && (forall|j: int| 0 <= j < trusted@.len() ==> trusted@[j].id != peer)
                ==> fails_with(r, DomainErrorCode::TransportPeerNotTrusted),
            !is_connected(self@, peer) && (exists|j: int| 0 <= j < trusted@.len() && trusted@[j].id == peer)
                && !has_addr ==> fails_with(r, DomainErrorCode::TransportConnectionFailed),
            !is_connected(self@, peer) && has_addr ==> (r matches Ok(Some(i)) ==> i < trusted@.len()
                && trusted@[i as int].id == peer),
            !is_connected(self@, peer) && has_addr && (exists|j: int|
                0 <= j < trusted@.len() && trusted@[j].id == peer) ==> r matches Ok(Some(_)),
    {
        if self.is_peer_connected(peer) {
            return Ok(None);
        }
        let i = match find_trusted(trusted, peer) {
            None => {
                return Err(DomainError::new(DomainErrorCode::TransportPeerNotTrusted, "peer não está na lista de confiança"));
            },
            Some(i) => i,
        };
        if !has_addr {
            return Err(DomainError::new(DomainErrorCode::TransportConnectionFailed, "endereço do peer não encontrado na rede"));
        }
        Ok(Some(i))
    }

    /// The outcome of connecting to `peer`. Its entry is created (under
    /// `fresh_id`) when missing. A failure marks it disconnected and is a
    /// `TransportConnectionFailed`; success records the connection id,
    /// marks it connected and announces it as outbound.
    pub fn finish_connect(&mut self, peer: PeerId, fresh_id: SessionId, outcome: Result<SessionId, String>, username: String) -> (r: Result<DomainEvent, DomainError>)
        requires
            conns_wf(old(self)@),
        ensures
            conns_wf(final(self)@),
            ({
                let base = if has_conn(old(self)@, peer) { conn_of(old(self)@, peer) } else { Connection::new_spec(peer, fresh_id) };
                match outcome {
                    Err(_) => fails_with(r, DomainErrorCode::TransportConnectionFailed)
                        && final(self)@ == put_conn(old(self)@, Connection { state: ConnectionState::Disconnected, ..base }),
                    Ok(id) => r matches Ok(ev) && ev == (DomainEvent::ConnectionEstablished {
                        peer_id: peer,
                        peer_username: username,
                        is_inbound: false,
                        via_workspace_id: None,
                    }) && final(self)@ == put_conn(old(self)@, Connection { id, state: ConnectionState::Connected, ..base }),
                }
            }),
    {
        let base = match self.get(peer) {
            Some(c) => c,
            None => Connection::new(peer, fresh_id),
        };
        match outcome {
            Err(msg) => {
                self.put(Connection { state: ConnectionState::Disconnected, ..base });
                Err(DomainError::new(DomainErrorCode::TransportConnectionFailed, msg.as_str()))
            },
            Ok(id) => {
                self.put(Connection { id, state: ConnectionState::Connected, ..base });
                Ok(DomainEvent::ConnectionEstablished { peer_id: peer, peer_username: username, is_inbound: false, via_workspace_id: None })
            },
        }
    }

    /// A connection came in with the peer's public key `key`. A key no
    /// trusted peer has is refused with `TransportPeerNotTrusted`;
    /// otherwise the first trusted peer with it is connected under
    /// `conn_id` (its entry created under that id when missing) and the
    /// connection is announced as inbound.
    pub fn accept_incoming(&mut self, trusted: &Vec<TrustedPeer>, key: &[u8; 32], conn_id: SessionId) -> (r: Result<DomainEvent, DomainError>)
        requires
            conns_wf(old(self)@),
        ensures
            conns_wf(final(self)@),
            (forall|j: int| 0 <= j < trusted@.len() ==> trusted@[j].public_key != *key) ==> fails_with(
                r,
                DomainErrorCode::TransportPeerNotTrusted,
            ) && final(self)@ == old(self)@,
            (exists|j: int| 0 <= j < trusted@.len() && trusted@[j].public_key == *key) ==> exists|i: int|
                0 <= i < trusted@.len() && trusted@[i].public_key == *key && (forall|j: int|
                    0 <= j < i ==> trusted@[j].public_key != *key) && {
                    let p = trusted@[i].id;
                    let base = if has_conn(old(self)@, p) { conn_of(old(self)@, p) } else { Connection::new_spec(p, conn_id) };
                    &&& r matches Ok(ev) && ev == (DomainEvent::ConnectionEstablished {
                        peer_id: p,
                        peer_username: trusted@[i].username,
                        is_inbound: true,
                        via_workspace_id: None,
                    })
                    &&& final(self)@ == put_conn(old(self)@, Connection { id: conn_id, state: ConnectionState::Connected, ..base })
                },
    {
        let i = match find_trusted_by_key(trusted, key) {
            None => {
                return Err(DomainError::new(DomainErrorCode::TransportPeerNotTrusted, "conexão de peer não confiável"));
            },
            Some(i) => i,
        };
        let peer = trusted[i].id;
        let base = match self.get(peer) {
            Some(c) => c,
            None => Connection::new(peer, conn_id),
        };
        self.put(Connection { id: conn_id, state: ConnectionState::Connected, ..base });
        Ok(DomainEvent::ConnectionEstablished {
            peer_id: peer,
            peer_username: trusted[i].username.clone(),
            is_inbound: true,
            via_workspace_id: None,
        })
    }

    /// The id of the connection to `peer`; without one this is a
    /// `TransportConnectionFailed`.
    pub fn conn_id(&self, peer: PeerId) -> (r: Result<SessionId, DomainError>)
        requires
            conns_wf(self@),
        ensures
            has_conn(self@, peer) ==> r == Ok::<SessionId, DomainError>(conn_of(self@, peer).id),
            !has_conn(self@, peer) ==> fails_with(r, DomainErrorCode::TransportConnectionFailed),
    {
        match self.get(peer) {
            Some(c) => Ok(c.id),
            None => Err(DomainError::new(DomainErrorCode::TransportConnectionFailed, "nenhuma conexão ativa para este peer")),
        }
    }

    /// Disconnects from `peer`: its connection is marked disconnected, its
    /// id handed out to be closed, and the loss announced with the reason
    /// "disconnect solicitado". Without one this is a
    /// `TransportConnectionFailed`.
    pub fn disconnect(&mut self, peer: PeerId) -> (r: Result<(SessionId, DomainEvent), DomainError>)
        requires
            conns_wf(old(self)@),
        ensures
            conns_wf(final(self)@),
            has_conn(old(self)@, peer) ==> (r matches Ok((id, ev)) && id == conn_of(old(self)@, peer).id
                && ev is ConnectionLost && ev->ConnectionLost_peer_id == peer
                && ev->ConnectionLost_reason@ == "disconnect solicitado"@)
                && final(self)@ == put_conn(old(self)@, Connection { state: ConnectionState::Disconnected, ..conn_of(old(self)@, peer) }),
            !has_conn(old(self)@, peer) ==> fails_with(r, DomainErrorCode::TransportConnectionFailed)
                && final(self)@ == old(self)@,
    {
        match self.get(peer) {
            None => Err(DomainError::new(DomainErrorCode::TransportConnectionFailed, "nenhuma conexão ativa para este peer")),
            Some(c) => {
                self.put(Connection { state: ConnectionState::Disconnected, ..c });
                let reason = String::from_str("disconnect solicitado");
                Ok((c.id, DomainEvent::ConnectionLost { peer_id: peer, reason }))
            },
        }
    }

    /// Records fresh statistics of the connection to `peer`, if any.
    pub fn record_stats(&mut self, peer: PeerId, stats: ConnectionStats)
        requires
            conns_wf(old(self)@),
        ensures
            conns_wf(final(self)@),
            has_conn(old(self)@, peer) ==> final(self)@ == put_conn(old(self)@, Connection { stats, ..conn_of(old(self)@, peer) }),
            !has_conn(old(self)@, peer) ==> final(self)@ == old(self)@,
    {
        match self.get(peer) {
            None => {},
            Some(c) => {
                self.put(Connection { stats, ..c });
            },
        }
    }

    /// The peers and ids of the connections that are up, in order.
    pub fn active_connections(&self) -> (v: Vec<(PeerId, SessionId)>)
        ensures
            v@ == active_pairs(self@),
    {
        let mut v: Vec<(PeerId, SessionId)> = Vec::new();
        let mut i: usize = 0;
        while i < self.conns.len()
            invariant
                i <= self.conns@.len(),
                v@ == active_pairs(self@.take(i as int)),
            decreases self.conns@.len() - i,
        {
            proof {
                assert(self@.take(i + 1).drop_last() =~= self@.take(i as int));
            }
            let c = self.conns[i];
            if c.is_active() {
                v.push((c.peer_id, c.id));
            }
            i = i + 1;
        }
        proof {
            assert(self@.take(self@.len() as int) =~= self@);
        }
        v
    }

    /// The peers whose connection is reconnecting, in order.
    pub fn reconnecting_peers(&self) -> (v: Vec<PeerId>)
        ensures
            v@ == reconnecting(self@),
    {
        let mut v: Vec<PeerId> = Vec::new();
        let mut i: usize = 0;
        while i < self.conns.len()
            invariant
                i <= self.conns@.len(),
                v@ == reconnecting(self@.take(i as int)),
            decreases self.conns@.len() - i,
        {
            proof {
                assert(self@.take(i + 1).drop_last() =~= self@.take(i as int));
            }
            let c = self.conns[i];
            match c.state {
                ConnectionState::Reconnecting { .. } => {
                    v.push(c.peer_id);
                },
                _ => {},
            }
            i = i + 1;
        }
        proof {
            assert(self@.take(self@.len() as int) =~= self@);
        }
        v
    }

    /// One reconnection round for `peer`: a missing connection is skipped;
    /// one out of attempts (`MAX_RECONNECT_ATTEMPTS`) is marked
    /// disconnected and given up, which is announced as lost with the
    /// reason "máximo de tentativas de reconexão"; otherwise it is tried
    /// again.
    pub fn reconnect_step(&mut self, peer: PeerId) -> (r: (ReconnectStep, Option<DomainEvent>))
        requires
            conns_wf(old(self)@),
        ensures
            conns_wf(final(self)@),
            !has_conn(old(self)@, peer) ==> r == (ReconnectStep::Skip, None::<DomainEvent>) && final(self)@ == old(self)@,
            has_conn(old(self)@, peer) ==> match conn_of(old(self)@, peer).state {
                ConnectionState::Reconnecting { attempts } if attempts >= MAX_RECONNECT_ATTEMPTS => {
                    &&& r.0 == ReconnectStep::GiveUp
                    &&& r.1 matches Some(ev) && ev is ConnectionLost && ev->ConnectionLost_peer_id == peer
                        && ev->ConnectionLost_reason@ == "máximo de tentativas de reconexão"@
                    &&& final(self)@ == put_conn(old(self)@, Connection { state: ConnectionState::Disconnected, ..conn_of(old(self)@, peer) })
                },
                _ => r == (ReconnectStep::Retry { old_id: conn_of(old(self)@, peer).id }, None::<DomainEvent>)
                    && final(self)@ == old(self)@,
            },
    {
        let c = match self.get(peer) {
            None => {
                return (ReconnectStep::Skip, None);
            },
            Some(c) => c,
        };
        match c.state {
            ConnectionState::Reconnecting { attempts } => {
                if attempts >= MAX_RECONNECT_ATTEMPTS {
                    self.put(Connection { state: ConnectionState::Disconnected, ..c });
                    let reason = String::from_str("máximo de tentativas de reconexão");
                    return (ReconnectStep::GiveUp, Some(DomainEvent::ConnectionLost { peer_id: peer, reason }));
                }
            },
            _ => {},
        }
        (ReconnectStep::Retry { old_id: c.id }, None)
    }

    /// A reconnection failed: one more attempt is counted.
    pub fn reconnect_failed(&mut self, peer: PeerId)
        requires
            conns_wf(old(self)@),
        ensures
            conns_wf(final(self)@),
            has_conn(old(self)@, peer) ==> final(self)@ == put_conn(
                old(self)@,
                Connection { state: next_reconnecting(conn_of(old(self)@, peer).state), ..conn_of(old(self)@, peer) },
            ),
            !has_conn(old(self)@, peer) ==> final(self)@ == old(self)@,
    {
        match self.get(peer) {
            None => {},
            Some(c) => {
                let mut c2 = c;
                c2.mark_reconnecting();
                self.put(c2);
            },
        }
    }

    /// A reconnection succeeded under `id`: the connection is up again
    /// (announced as outbound, with the trusted peer's name).
    pub fn reconnect_succeeded(&mut self, peer: PeerId, id: SessionId, username: String) -> (ev: DomainEvent)
        requires
            conns_wf(old(self)@),
        ensures
            conns_wf(final(self)@),
            has_conn(old(self)@, peer) ==> final(self)@ == put_conn(
                old(self)@,
                Connection { id, state: ConnectionState::Connected, ..conn_of(old(self)@, peer) },
            ),
            !has_conn(old(self)@, peer) ==> final(self)@ == old(self)@,
            ev == (DomainEvent::ConnectionEstablished { peer_id: peer, peer_username: username, is_inbound: false, via_workspace_id: None }),
    {
        match self.get(peer) {
            None => {},
            Some(c) => {
                self.put(Connection { id, state: ConnectionState::Connected, ..c });
            },
        }
        DomainEvent::ConnectionEstablished { peer_id: peer, peer_username: username, is_inbound: false, via_workspace_id: None }
    }

    /// Every connection's peer and state, in order.
    pub fn list(&self) -> (v: Vec<(PeerId, ConnectionState)>)
        ensures
            v@.len() == self@.len(),
            forall|i: int| 0 <= i < self@.len() ==> #[trigger] v@[i] == (self@[i].peer_id, self@[i].state),
    {
        let mut v: Vec<(PeerId, ConnectionState)> = Vec::new();
        let mut i: usize = 0;
        while i < self.conns.len()
            invariant
                i <= self.conns@.len(),
                v@.len() == i,
                forall|k: int| 0 <= k < i ==> #[trigger] v@[k] == (self@[k].peer_id, self@[k].state),
            decreases self.conns@.len() - i,
        {
            v.push((self.conns[i].peer_id, self.conns[i].state));
            i = i + 1;
        }
        v
    }
}

impl Connection {
    /// A connection to `peer_id` being set up under `id`.
    pub open spec fn new_spec(peer_id: PeerId, id: SessionId) -> Connection {
        Connection { id, peer_id, state: ConnectionState::Connecting, stats: ConnectionStats { rtt_ms: 0, tx_bytes: 0, rx_bytes: 0, lost_packets: 0 } }
    }
}

/// The peers and ids of the connections that are up, in order.
pub open spec fn active_pairs(s: Seq<Connection>) -> Seq<(PeerId, SessionId)>
    decreases s.len(),
{
    if s.len() == 0 {
        Seq::empty()
    } else {
        let rest = active_pairs(s.drop_last());
        if s.last().state == ConnectionState::Connected {
            rest.push((s.last().peer_id, s.last().id))
        } else {
            rest
        }
    }
}

/// The peers whose connection is reconnecting, in order.
pub open spec fn reconnecting(s: Seq<Connection>) -> Seq<PeerId>
    decreases s.len(),
{
    if s.len() == 0 {
        Seq::empty()
    } else {
        let rest = reconnecting(s.drop_last());
        if s.last().state is Reconnecting {
            rest.push(s.last().peer_id)
        } else {
            rest
        }
    }
}

/// The last RTT announced for each peer.
pub struct RttTracker {
    last: Vec<(PeerId, u32)>,
}

/// The last RTT announced for `p`, if any.
pub open spec fn last_rtt(s: Seq<(PeerId, u32)>, p: PeerId) -> Option<u32>
    decreases s.len(),
{
    if s.len() == 0 {
        None
    } else if s.last().0 == p {
        Some(s.last().1)
    } else {
        last_rtt(s.drop_last(), p)
    }
}

impl View for RttTracker {
    type V = Seq<(PeerId, u32)>;

    closed spec fn view(&self) -> Seq<(PeerId, u32)> {
        self.last@
    }
}

impl RttTracker {
    /// Nothing announced yet.
    pub fn new() -> (t: Self)
        ensures
            forall|p: PeerId| last_rtt(t@, p) is None,
    {
        RttTracker { last: Vec::new() }
    }

    /// The index of the entry that gives the last RTT of `p`.
    fn lookup(&self, p: PeerId) -> (r: Option<usize>)
        ensures
            r is None ==> last_rtt(self@, p) is None,
            r matches Some(i) ==> i < self@.len() && self@[i as int].0 == p && last_rtt(self@, p) == Some(self@[i as int].1)
                && forall|j: int| i < j < self@.len() ==> self@[j].0 != p,
    {
        let mut i: usize = self.last.len();
        proof {
            assert(self@.take(i as int) =~= self@);
        }
        while i > 0
            invariant
                i <= self.last@.len(),
                last_rtt(self@, p) == last_rtt(self@.take(i as int), p),
                forall|j: int| i <= j < self@.len() ==> self@[j].0 != p,
            decreases i,
        {
            proof {
                assert(self@.take(i as int).drop_last() =~= self@.take(i - 1));
            }
            let (q, _v) = self.last[i - 1];
            if q == p {
                return Some(i - 1);
            }
            i = i - 1;
        }
        None
    }

    /// New statistics of `peer`: announced (and remembered) when they are
    /// worth it (see [`stats_worth_publishing`]). A peer keeps one entry:
    /// a new RTT takes the place of the one remembered.
    pub fn observe(&mut self, peer: PeerId, stats: ConnectionStats) -> (r: Option<DomainEvent>)
        ensures
            stats_worth_publishing(last_rtt(old(self)@, peer), stats.rtt_ms) ==> r == Some(
                DomainEvent::StatsUpdated { peer_id: peer, stats },
            ) && (forall|p: PeerId| last_rtt(final(self)@, p) == (if p == peer { Some(stats.rtt_ms) } else { last_rtt(old(self)@, p) }))
                && final(self)@.len() == old(self)@.len() + (if last_rtt(old(self)@, peer) is Some { 0int } else { 1int }),
            !stats_worth_publishing(last_rtt(old(self)@, peer), stats.rtt_ms) ==> r is None && final(self)@ == old(self)@,
    {
        let found = self.lookup(peer);
        let prev = match found {
            Some(i) => Some(self.last[i].1),
            None => None,
        };
        if should_publish_stats(prev, stats.rtt_ms) {
            match found {
                Some(i) => {
                    self.last.set(i, (peer, stats.rtt_ms));
                    proof {
                        assert forall|p: PeerId| last_rtt(self@, p) == (if p == peer { Some(stats.rtt_ms) } else {
                            last_rtt(old(self)@, p)
                        }) by {
                            lemma_replace_last(old(self)@, i as int, peer, stats.rtt_ms, p);
                            assert(self@ =~= old(self)@.update(i as int, (peer, stats.rtt_ms)));
                        }
                    }
                },
                None => {
                    self.last.push((peer, stats.rtt_ms));
                    proof {
                        assert(self@.drop_last() =~= old(self)@);
                    }
                },
            }
            Some(DomainEvent::StatsUpdated { peer_id: peer, stats })
        } else {
            None
        }
    }
}

/// Replacing the last entry of `p` gives `p` the new value and leaves
/// every other peer's last value as it was.
proof fn lemma_replace_last(s: Seq<(PeerId, u32)>, i: int, p: PeerId, v: u32, q: PeerId)
    requires
        0 <= i < s.len(),
        s[i].0 == p,
        forall|j: int| i < j < s.len() ==> s[j].0 != p,
    ensures
        last_rtt(s.update(i, (p, v)), q) == (if q == p { Some(v) } else { last_rtt(s, q) }),
    decreases s.len(),
{
    let u = s.update(i, (p, v));
    if i == s.len() - 1 {
        assert(u.drop_last() =~= s.drop_last());
    } else {
        assert(u.drop_last() =~= s.drop_last().update(i, (p, v)));
        assert(u.last() == s.last());
        lemma_replace_last(s.drop_last(), i, p, v, q);
    }
}

/// Only reconnecting connections are retried: the peers listed are, in
/// order, those of the connections in the `Reconnecting` state. A peer is
/// listed exactly when one of its connections is reconnecting, so a
/// connected, given-up or disconnected connection is never retried.
pub proof fn retried_peers_are_reconnecting(s: Seq<Connection>, p: PeerId)
    ensures
        reconnecting(s) == s.filter(|c: Connection| c.state is Reconnecting).map_values(|c: Connection| c.peer_id),
        reconnecting(s).contains(p) <==> exists|i: int| 0 <= i < s.len() && s[i].peer_id == p && s[i].state is Reconnecting,
    decreases s.len(),
{
    let pred = |c: Connection| c.state is Reconnecting;
    let f = |c: Connection| c.peer_id;
    if s.len() > 0 {
        let q = s.drop_last();
        retried_peers_are_reconnecting(q, p);
        assert(s == q.push(s.last()));
        q.lemma_filter_push(s.last(), pred);
        assert(reconnecting(s) =~= s.filter(pred).map_values(f));
    } else {
        reveal_with_fuel(Seq::filter, 1);
        assert(s.filter(pred).map_values(f) =~= Seq::<PeerId>::empty());
    }
    let r = reconnecting(s);
    let fl = s.filter(pred);
    if r.contains(p) {
        let j = choose|j: int| 0 <= j < r.len() && r[j] == p;
        s.lemma_filter_pred(pred, j);
        s.lemma_filter_contains_rev(pred, fl[j]);
        let i = choose|i: int| 0 <= i < s.len() && s[i] == fl[j];
        assert(s[i].peer_id == p && s[i].state is Reconnecting);
    }
    if exists|i: int| 0 <= i < s.len() && s[i].peer_id == p && s[i].state is Reconnecting {
        let i = choose|i: int| 0 <= i < s.len() && s[i].peer_id == p && s[i].state is Reconnecting;
        s.lemma_filter_contains(pred, i);
        let j = choose|j: int| 0 <= j < fl.len() && fl[j] == s[i];
        assert(r[j] == p);
    }
}

/// After a successful connection, the peer is connected.
pub proof fn connected_after_success(s: Seq<Connection>, c: Connection)
    requires
        conns_wf(s),
        c.state == ConnectionState::Connected,
    ensures
        is_connected(put_conn(s, c), c.peer_id),
        conns_wf(put_conn(s, c)),
{
    lemma_put_conn(s, c);
}

/// After a disconnection, the peer is not connected.
pub proof fn disconnected_after_disconnect(s: Seq<Connection>, c: Connection)
    requires
        conns_wf(s),
        c.state == ConnectionState::Disconnected,
    ensures
        !is_connected(put_conn(s, c), c.peer_id),
{
    lemma_put_conn(s, c);
}

/// Putting a connection keeps one entry per peer and makes it the entry
/// of its peer; other peers' entries do not change.
pub proof fn lemma_put_conn(s: Seq<Connection>, c: Connection)
    requires
        conns_wf(s),
    ensures
        conns_wf(put_conn(s, c)),
        has_conn(put_conn(s, c), c.peer_id),
        conn_of(put_conn(s, c), c.peer_id) == c,
        forall|p: PeerId| p != c.peer_id ==> (has_conn(put_conn(s, c), p) == has_conn(s, p)) && (has_conn(s, p)
            ==> conn_of(put_conn(s, c), p) == conn_of(s, p)),
{
    let t = put_conn(s, c);
    if has_conn(s, c.peer_id) {
        let k = conn_index(s, c.peer_id);
        assert(t[k] == c);
        assert forall|a: int, b: int| 0 <= a < b < t.len() implies t[a].peer_id != t[b].peer_id by {
            assert(s[a].peer_id != s[b].peer_id);
        }
    } else {
        assert(t[t.len() - 1] == c);
        assert forall|a: int, b: int| 0 <= a < b < t.len() implies t[a].peer_id != t[b].peer_id by {
            if b == t.len() - 1 {
                assert(s[a].peer_id != c.peer_id);
            } else {
                assert(s[a].peer_id != s[b].peer_id);
            }
        }
    }
    let kc = conn_index(t, c.peer_id);
    assert(t[kc].peer_id == c.peer_id);
    assert forall|p: PeerId| p != c.peer_id implies (has_conn(t, p) == has_conn(s, p)) && (has_conn(s, p) ==> conn_of(t, p)
        == conn_of(s, p)) by {
        if has_conn(s, p) {
            let i = conn_index(s, p);
            assert(t[i] == s[i]);
            let j = conn_index(t, p);
            assert(t[j].peer_id == p);
            if j != i {
                assert(t[i].peer_id == t[j].peer_id);
            }
        }
        if has_conn(t, p) {
            let j = conn_index(t, p);
            assert(s[j] == t[j]);
        }
    }
}

/// Where the input stream to a peer comes from.
#[derive(Clone, Copy, Debug, PartialEq, Eq, Structural)]
pub enum StreamSource {
    /// This device connected: it opens the stream.
    Open,
    /// The peer connected: its stream is awaited.
    WaitInbound,
}

/// How long an inbound input stream is awaited, in milliseconds.
pub const INBOUND_WAIT_MS: u64 = 5000;

/// Where the input stream to a peer comes from; a peer that is not
/// connected is refused with `TransportConnectionFailed`.
pub fn input_stream_source(connected: bool, outbound: bool) -> (r: Result<StreamSource, DomainError>)
    ensures
        !connected ==> fails_with(r, DomainErrorCode::TransportConnectionFailed),
        connected && outbound ==> r == Ok::<StreamSource, DomainError>(StreamSource::Open),
        connected && !outbound ==> r == Ok::<StreamSource, DomainError>(StreamSource::WaitInbound),
{
    if !connected {
        return Err(DomainError::new(DomainErrorCode::TransportConnectionFailed, "peer não conectado"));
    }
    if outbound {
        Ok(StreamSource::Open)
    } else {
        Ok(StreamSource::WaitInbound)
    }
}

/// The peer for which KVM turns on by itself: one that connected to this
/// device directly (inbound, not through a workspace).
pub fn auto_enable_peer(ev: &DomainEvent) -> (r: Option<PeerId>)
    ensures
        r == match *ev {
            DomainEvent::ConnectionEstablished { peer_id, is_inbound, via_workspace_id, .. } => if is_inbound
                && via_workspace_id is None {
                Some(peer_id)
            } else {
                None
            },
            _ => None,
        },
{
    match ev {
        DomainEvent::ConnectionEstablished { peer_id, is_inbound, via_workspace_id, .. } => {
            if *is_inbound && via_workspace_id.is_none() {
                Some(*peer_id)
            } else {
                None
            }
        },
        _ => None,
    }
}

} // verus!
