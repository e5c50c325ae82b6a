use winx_application::error::{DomainError, DomainErrorCode};
use winx_application::events::ConnectionStats;
use winx_application::lab_core::{
    check_pong, clamp_latency, control_probe, input_probe, mdns_probe, millis_to_u64, now_ms, pairing_probe,
    quic_probe,
};

#[test]
fn now_is_after_2020() {
    assert!(now_ms() > 1_577_836_800_000);
}

#[test]
fn millis_conversion_saturates() {
    assert_eq!(millis_to_u64(None), 0);
    assert_eq!(millis_to_u64(Some(42)), 42);
    assert_eq!(millis_to_u64(Some(u128::MAX)), u64::MAX);
    assert_eq!(clamp_latency(7), 7);
    assert_eq!(clamp_latency(u128::from(u32::MAX) + 1), u32::MAX);
}

#[test]
fn mdns_probe_ok_when_peer_in_registry() {
    let p = mdns_probe(true);
    assert!(p.ok);
    assert_eq!(p.service, "mdns");
    assert_eq!(p.detail, "peer visível na rede");
    let q = mdns_probe(false);
    assert!(!q.ok);
    assert_eq!(q.detail, "peer não encontrado no registry mDNS");
}

#[test]
fn pairing_probe_fails_when_no_pong() {
    let p = pairing_probe(true, 42, Err("timeout aguardando pong UDP".to_string()));
    assert!(!p.ok);
    assert_eq!(p.detail, "timeout aguardando pong UDP");
    let no_addr = pairing_probe(false, 42, Ok(3));
    assert!(!no_addr.ok);
    assert_eq!(no_addr.detail, "endereço do peer não resolvido");
    let ok = pairing_probe(true, 1_700_000_000_123, Ok(3));
    assert_eq!(ok.latency_ms, Some(3));
    assert_eq!(ok.detail, "pong nonce=1700000000123");
    assert_eq!(pairing_probe(true, 0, Ok(1)).detail, "pong nonce=0");
    assert_eq!(pairing_probe(true, u64::MAX, Ok(1)).detail, "pong nonce=18446744073709551615");
}

#[test]
fn pong_must_carry_the_ping_nonce() {
    assert_eq!(check_pong(42, Some(42)), Ok(()));
    assert_eq!(check_pong(42, Some(43)), Err("nonce do pong não confere".to_string()));
    assert_eq!(check_pong(42, None), Err("resposta WINP inválida".to_string()));
}

#[test]
fn quic_and_control_probes() {
    let stats = ConnectionStats { rtt_ms: 12, tx_bytes: 1, rx_bytes: 20, lost_packets: 300 };
    let p = quic_probe(true, Ok(stats));
    assert!(p.ok);
    assert_eq!(p.latency_ms, Some(12));
    assert_eq!(p.detail, "tx=1 rx=20 lost=300");
    let off = quic_probe(false, Ok(stats));
    assert!(!off.ok);
    assert_eq!(off.detail, "peer não conectado via QUIC");
    let err = DomainError { code: DomainErrorCode::InternalError, message: "no ack".to_string() };
    let failed = quic_probe(true, Err(err.clone()));
    assert_eq!(failed.detail, "no ack");
    let c = control_probe(true, Some(5), Err(err));
    assert!(!c.ok);
    assert_eq!(c.detail, "control_stream_no_ack: no ack");
    let ack = control_probe(true, None, Ok(9));
    assert_eq!(ack.latency_ms, Some(9));
    assert_eq!(ack.detail, "HeartbeatAck recebido (RTT heartbeat=9 ms)");
    let both = control_probe(true, Some(15), Ok(9));
    assert_eq!(both.detail, "HeartbeatAck recebido (RTT heartbeat=9 ms, RTT transporte=15 ms)");
    assert_eq!(control_probe(false, Some(15), Ok(9)).detail, "peer não conectado");
}

#[test]
fn input_probe_caps_latency() {
    let p = input_probe(true, Ok(()), u128::MAX);
    assert_eq!(p.latency_ms, Some(u32::MAX));
    assert_eq!(p.detail, "ping Input enviado no stream");
    let off = input_probe(false, Ok(()), 1);
    assert!(!off.ok);
    assert_eq!(off.detail, "peer não conectado");
    let err = DomainError { code: DomainErrorCode::InternalError, message: "closed".to_string() };
    assert_eq!(input_probe(true, Err(err), 1).detail, "input_stream_send_failed: closed");
}
