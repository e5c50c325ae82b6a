use winx_application::error::DomainErrorCode;
use winx_application::events::{ConnectionStats, DomainEvent};
use winx_application::ids::{PeerId, SessionId};
use winx_application::transport_core::{
    auto_enable_peer, input_stream_source, should_publish_stats, ConnectionState, ConnectionTable, ReconnectStep,
    RttTracker, StreamSource, TrustedPeer,
};

fn trusted(id: u128, name: &str, key: u8) -> TrustedPeer {
    TrustedPeer { id: PeerId(id), username: name.to_string(), public_key: [key; 32] }
}

#[test]
fn connect_peer_emits_connection_established() {
    let peer = PeerId(1);
    let peers = vec![trusted(1, "Peer A", 0x11)];
    let mut t = ConnectionTable::new();
    let idx = t.begin_connect(peer, &peers, true).unwrap().unwrap();
    assert_eq!(idx, 0);
    let ev = t.finish_connect(peer, SessionId(100), Ok(SessionId(7)), peers[idx].username.clone()).unwrap();
    assert!(matches!(ev, DomainEvent::ConnectionEstablished { peer_id, is_inbound: false, .. } if peer_id == peer));
    assert!(t.is_peer_connected(peer));
    assert_eq!(t.conn_id(peer).unwrap(), SessionId(7));
    assert_eq!(t.begin_connect(peer, &peers, true).unwrap(), None);
}

#[test]
fn disconnect_peer_emits_connection_lost() {
    let peer = PeerId(2);
    let mut t = ConnectionTable::new();
    t.finish_connect(peer, SessionId(100), Ok(SessionId(8)), "Peer B".to_string()).unwrap();
    let (id, event) = t.disconnect(peer).unwrap();
    assert_eq!(id, SessionId(8));
    match event {
        DomainEvent::ConnectionLost { peer_id, reason } => {
            assert_eq!(peer_id, peer);
            assert_eq!(reason, "disconnect solicitado");
        },
        _ => panic!("expected ConnectionLost"),
    }
    assert!(!t.is_peer_connected(peer));
    assert_eq!(t.disconnect(PeerId(3)).unwrap_err().code, DomainErrorCode::TransportConnectionFailed);
}

#[test]
fn connect_refusals() {
    let t = ConnectionTable::new();
    let peers = vec![trusted(1, "A", 1)];
    assert_eq!(t.begin_connect(PeerId(9), &peers, true).unwrap_err().code, DomainErrorCode::TransportPeerNotTrusted);
    assert_eq!(t.begin_connect(PeerId(1), &peers, false).unwrap_err().code, DomainErrorCode::TransportConnectionFailed);
}

#[test]
fn failed_connect_marks_disconnected() {
    let mut t = ConnectionTable::new();
    let err = t.finish_connect(PeerId(1), SessionId(5), Err("refused".to_string()), "A".to_string()).unwrap_err();
    assert_eq!(err.code, DomainErrorCode::TransportConnectionFailed);
    assert_eq!(err.message, "refused");
    assert_eq!(t.get(PeerId(1)).unwrap().state, ConnectionState::Disconnected);
    assert_eq!(t.get(PeerId(1)).unwrap().id, SessionId(5));
}

#[test]
fn incoming_connection_needs_a_trusted_key() {
    let peers = vec![trusted(1, "A", 1), trusted(2, "B", 2)];
    let mut t = ConnectionTable::new();
    assert_eq!(t.accept_incoming(&peers, &[3; 32], SessionId(1)).unwrap_err().code, DomainErrorCode::TransportPeerNotTrusted);
    let ev = t.accept_incoming(&peers, &[2; 32], SessionId(4)).unwrap();
    assert!(matches!(ev, DomainEvent::ConnectionEstablished { peer_id, is_inbound: true, .. } if peer_id == PeerId(2)));
    assert!(t.is_peer_connected(PeerId(2)));
    assert_eq!(auto_enable_peer(&ev), Some(PeerId(2)));
}

#[test]
fn reconnection_gives_up_after_three_attempts() {
    let peer = PeerId(1);
    let mut t = ConnectionTable::new();
    t.finish_connect(peer, SessionId(1), Ok(SessionId(2)), "A".to_string()).unwrap();
    assert_eq!(t.reconnecting_peers().len(), 0);
    for _ in 0..2 {
        t.reconnect_failed(peer);
        assert_eq!(t.reconnecting_peers(), vec![peer]);
        assert_eq!(t.reconnect_step(peer).0, ReconnectStep::Retry { old_id: SessionId(2) });
    }
    t.reconnect_failed(peer);
    assert_eq!(t.get(peer).unwrap().state, ConnectionState::Reconnecting { attempts: 3 });
    let (step, ev) = t.reconnect_step(peer);
    assert_eq!(step, ReconnectStep::GiveUp);
    match ev {
        Some(DomainEvent::ConnectionLost { peer_id, reason }) => {
            assert_eq!(peer_id, peer);
            assert_eq!(reason, "máximo de tentativas de reconexão");
        },
        _ => panic!("expected ConnectionLost"),
    }
    assert_eq!(t.get(peer).unwrap().state, ConnectionState::Disconnected);
    assert_eq!(t.reconnect_step(PeerId(9)).0, ReconnectStep::Skip);
}

#[test]
fn reconnect_success_reconnects() {
    let peer = PeerId(1);
    let mut t = ConnectionTable::new();
    t.finish_connect(peer, SessionId(1), Ok(SessionId(2)), "A".to_string()).unwrap();
    t.reconnect_failed(peer);
    let ev = t.reconnect_succeeded(peer, SessionId(3), "A".to_string());
    assert!(matches!(ev, DomainEvent::ConnectionEstablished { .. }));
    assert!(t.is_peer_connected(peer));
    assert_eq!(t.active_connections(), vec![(peer, SessionId(3))]);
}

#[test]
fn stats_are_announced_on_rtt_change() {
    assert!(should_publish_stats(None, 10));
    assert!(!should_publish_stats(Some(10), 15));
    assert!(should_publish_stats(Some(10), 16));
    assert!(should_publish_stats(Some(10), 4));
    let peer = PeerId(1);
    let stats = |rtt: u32| ConnectionStats { rtt_ms: rtt, tx_bytes: 1, rx_bytes: 2, lost_packets: 0 };
    let mut r = RttTracker::new();
    assert!(r.observe(peer, stats(10)).is_some());
    assert!(r.observe(peer, stats(12)).is_none());
    assert!(r.observe(peer, stats(20)).is_some());
    assert!(r.observe(peer, stats(23)).is_none());
}

#[test]
fn input_stream_source_by_direction() {
    assert!(input_stream_source(false, true).is_err());
    assert_eq!(input_stream_source(true, true).unwrap(), StreamSource::Open);
    assert_eq!(input_stream_source(true, false).unwrap(), StreamSource::WaitInbound);
}
