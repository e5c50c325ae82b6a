//! The connection lab: a suite of probes of the path to a peer (mDNS,
//! pairing UDP, QUIC, its control stream and the input stream), each
//! reported as a [`ProbeResult`].

use vstd::prelude::*;
use std::time::{Duration, SystemTime};
use crate::error::DomainError;
use crate::events::ConnectionStats;

verus! {

#[verifier::external_type_specification]
#[verifier::external_body]
pub struct ExSystemTime(SystemTime);

/// The outcome of one probe.
#[derive(Clone, Debug)]
pub struct ProbeResult {
    pub service: String,
    pub ok: bool,
    pub latency_ms: Option<u32>,
    pub detail: String,
}

/// The outcome of the whole suite.
#[derive(Clone, Debug)]
pub struct LabProbeResults {
    pub peer_id: String,
    pub probes: Vec<ProbeResult>,
    pub ran_at_ms: u64,
}

/// Calls `std::time::SystemTime::now`; the clock is read, nothing is stated.
#[verifier::external_body]
fn system_now() -> SystemTime {
    SystemTime::now()
}

/// Calls `SystemTime::duration_since` with the Unix epoch; a time before
/// the epoch gives `None`. Nothing is stated: the values are opaque here.
#[verifier::external_body]
fn since_unix_epoch(t: SystemTime) -> Option<Duration> {
    t.duration_since(std::time::UNIX_EPOCH).ok()
}

/// Calls `Duration::as_millis`. Nothing is stated: the duration is opaque here.
#[verifier::external_body]
fn duration_millis(d: &Duration) -> u128 {
    d.as_millis()
}

/// Milliseconds as a `u64`: none reads as 0, and too many as `u64::MAX`.
pub fn millis_to_u64(ms: Option<u128>) -> (r: u64)
    ensures
        r == match ms {
            None => 0,
            Some(m) => if m > u64::MAX { u64::MAX as int } else { m as int },
        },
{
    match ms {
        None => 0,
        Some(m) => {
            if m > u64::MAX as u128 {
                u64::MAX
            } else {
                m as u64
            }
        },
    }
}

/// Milliseconds since the Unix epoch (0 before it, `u64::MAX` past it).
pub fn now_ms() -> u64 {
    let ms = match since_unix_epoch(system_now()) {
        Some(d) => Some(duration_millis(&d)),
        None => None,
    };
    millis_to_u64(ms)
}

/// A latency in milliseconds as a `u32`, capped at `u32::MAX`.
pub fn clamp_latency(ms: u128) -> (r: u32)
    ensures
        r == (if ms > u32::MAX { u32::MAX as int } else { ms as int }),
{
    if ms > u32::MAX as u128 {
        u32::MAX
    } else {
        ms as u32
    }
}

/// The character of a decimal digit `d` (`0 <= d < 10`).
pub open spec fn digit_char(d: nat) -> char {
    (48 + d) as char
}

/// The decimal text of `n`: its digits, most significant first, with no
/// sign, padding or separator.
pub open spec fn decimal(n: nat) -> Seq<char>
    decreases n,
{
    if n < 10 {
        seq![digit_char(n)]
    } else {
        decimal(n / 10).push(digit_char(n % 10))
    }
}

/// The one-character text of a decimal digit.
fn digit_text(d: u64) -> (s: &'static str)
    requires
        d < 10,
    ensures
        s@ == seq![digit_char(d as nat)],
{
    proof {
        reveal_strlit("0");
        reveal_strlit("1");
        reveal_strlit("2");
        reveal_strlit("3");
        reveal_strlit("4");
        reveal_strlit("5");
        reveal_strlit("6");
        reveal_strlit("7");
        reveal_strlit("8");
        reveal_strlit("9");
    }
    match d {
        0 => "0",
        1 => "1",
        2 => "2",
        3 => "3",
        4 => "4",
        5 => "5",
        6 => "6",
        7 => "7",
        8 => "8",
        _ => "9",
    }
}

/// The decimal text of `n`, as `Display` writes an unsigned integer.
fn u64_text(n: u64) -> (s: String)
    ensures
        s@ == decimal(n as nat),
    decreases n,
{
    if n < 10 {
        digit_text(n).to_owned()
    } else {
        let head = u64_text(n / 10);
        let s = head.concat(digit_text(n % 10));
        proof {
            assert(s@ =~= decimal((n / 10) as nat).push(digit_char((n % 10) as nat)));
        }
        s
    }
}

/// `prefix`, a colon and a space, then `message`.
pub open spec fn prefixed_text(prefix: Seq<char>, message: Seq<char>) -> Seq<char> {
    prefix + ": "@ + message
}

/// The traffic counters of a QUIC connection as the QUIC probe reports them.
pub open spec fn traffic_text(stats: ConnectionStats) -> Seq<char> {
    "tx="@ + decimal(stats.tx_bytes as nat) + " rx="@ + decimal(stats.rx_bytes as nat)
        + " lost="@ + decimal(stats.lost_packets as nat)
}

/// What the control probe reports of a heartbeat ack, with the transport's
/// RTT where it is known.
pub open spec fn heartbeat_text(rtt: u32, transport_rtt: Option<u32>) -> Seq<char> {
    match transport_rtt {
        Some(t) => "HeartbeatAck recebido (RTT heartbeat="@ + decimal(rtt as nat)
            + " ms, RTT transporte="@ + decimal(t as nat) + " ms)"@,
        None => "HeartbeatAck recebido (RTT heartbeat="@ + decimal(rtt as nat) + " ms)"@,
    }
}

/// The text of [`prefixed_text`].
fn prefixed(prefix: &str, message: &String) -> (s: String)
    ensures
        s@ == prefixed_text(prefix@, message@),
{
    prefix.to_owned().concat(": ").concat(message.as_str())
}

/// The text of [`traffic_text`].
fn traffic_detail(stats: &ConnectionStats) -> (s: String)
    ensures
        s@ == traffic_text(*stats),
{
    let tx = u64_text(stats.tx_bytes);
    let rx = u64_text(stats.rx_bytes);
    let lost = u64_text(stats.lost_packets);
    "tx=".to_owned().concat(tx.as_str()).concat(" rx=").concat(rx.as_str()).concat(" lost=").concat(
        lost.as_str(),
    )
}

/// The text of [`heartbeat_text`].
fn heartbeat_detail(rtt: u32, transport_rtt: Option<u32>) -> (s: String)
    ensures
        s@ == heartbeat_text(rtt, transport_rtt),
{
    let head = "HeartbeatAck recebido (RTT heartbeat=".to_owned().concat(u64_text(rtt as u64).as_str());
    match transport_rtt {
        Some(t) => head.concat(" ms, RTT transporte=").concat(u64_text(t as u64).as_str()).concat(" ms)"),
        None => head.concat(" ms)"),
    }
}

/// A failed probe of `service` without a latency.
pub fn failed_probe(service: &str, detail: String) -> (p: ProbeResult)
    ensures
        p.service@ == service@,
        !p.ok,
        p.latency_ms is None,
        p.detail@ == detail@,
{
    ProbeResult { service: service.to_owned(), ok: false, latency_ms: None, detail }
}

/// The mDNS probe: whether the peer is in the registry.
pub fn mdns_probe(found: bool) -> (p: ProbeResult)
    ensures
        p.service@ == "mdns"@,
        p.ok == found,
        p.latency_ms is None,
        p.detail@ == (if found { "peer visível na rede"@ } else { "peer não encontrado no registry mDNS"@ }),
{
    let detail = if found {
        "peer visível na rede".to_owned()
    } else {
        "peer não encontrado no registry mDNS".to_owned()
    };
    ProbeResult { service: "mdns".to_owned(), ok: found, latency_ms: None, detail }
}

/// Checks a pairing pong against the ping it answers: `decoded` is the
/// nonce read from the reply, `None` where the reply is no pong.
pub fn check_pong(sent_nonce: u64, decoded: Option<u64>) -> (r: Result<(), String>)
    ensures
        r is Ok <==> decoded == Some(sent_nonce),
        decoded is None ==> r is Err && r->Err_0@ == "resposta WINP inválida"@,
        decoded is Some && decoded != Some(sent_nonce) ==> r is Err && r->Err_0@
            == "nonce do pong não confere"@,
{
    match decoded {
        None => Err("resposta WINP inválida".to_owned()),
        Some(n) => {
            if n == sent_nonce {
                Ok(())
            } else {
                Err("nonce do pong não confere".to_owned())
            }
        },
    }
}

/// The pairing UDP probe: without an address it fails; otherwise a pong to
/// the ping with `nonce` gives the round-trip time, and an error fails with
/// its message.
pub fn pairing_probe(has_addr: bool, nonce: u64, outcome: Result<u32, String>) -> (p: ProbeResult)
    ensures
        p.service@ == "pairing_udp"@,
        p.ok == (has_addr && outcome is Ok),
        p.latency_ms == (if has_addr && outcome is Ok { Some(outcome->Ok_0) } else { None }),
        p.detail@ == (if !has_addr {
            "endereço do peer não resolvido"@
        } else {
            match outcome {
                Ok(_) => "pong nonce="@ + decimal(nonce as nat),
                Err(msg) => msg@,
            }
        }),
{
    if !has_addr {
        return failed_probe("pairing_udp", "endereço do peer não resolvido".to_owned());
    }
    match outcome {
        Ok(ms) => ProbeResult {
            service: "pairing_udp".to_owned(),
            ok: true,
            latency_ms: Some(ms),
            detail: "pong nonce=".to_owned().concat(u64_text(nonce).as_str()),
        },
        Err(msg) => failed_probe("pairing_udp", msg),
    }
}

/// The QUIC probe: it needs a connection; its statistics give the RTT.
pub fn quic_probe(connected: bool, stats: Result<ConnectionStats, DomainError>) -> (p: ProbeResult)
    ensures
        p.service@ == "quic"@,
        p.ok == (connected && stats is Ok),
        p.latency_ms == (if connected && stats is Ok { Some(stats->Ok_0.rtt_ms) } else { None }),
        p.detail@ == (if !connected {
            "peer não conectado via QUIC"@
        } else {
            match stats {
                Ok(s) => traffic_text(s),
                Err(e) => e.message@,
            }
        }),
{
    if !connected {
        return failed_probe("quic", "peer não conectado via QUIC".to_owned());
    }
    match stats {
        Ok(s) => ProbeResult { service: "quic".to_owned(), ok: true, latency_ms: Some(s.rtt_ms), detail: traffic_detail(&s) },
        Err(e) => failed_probe("quic", e.message),
    }
}

/// The control-stream probe: it needs a connection; a heartbeat ack gives
/// its RTT.
pub fn control_probe(connected: bool, transport_rtt: Option<u32>, heartbeat: Result<u32, DomainError>) -> (p: ProbeResult)
    ensures
        p.service@ == "quic_control"@,
        p.ok == (connected && heartbeat is Ok),
        p.latency_ms == (if connected && heartbeat is Ok { Some(heartbeat->Ok_0) } else { None }),
        p.detail@ == (if !connected {
            "peer não conectado"@
        } else {
            match heartbeat {
                Ok(rtt) => heartbeat_text(rtt, transport_rtt),
                Err(e) => prefixed_text("control_stream_no_ack"@, e.message@),
            }
        }),
{
    if !connected {
        return failed_probe("quic_control", "peer não conectado".to_owned());
    }
    match heartbeat {
        Ok(rtt) => ProbeResult {
            service: "quic_control".to_owned(),
            ok: true,
            latency_ms: Some(rtt),
            detail: heartbeat_detail(rtt, transport_rtt),
        },
        Err(e) => failed_probe("quic_control", prefixed("control_stream_no_ack", &e.message)),
    }
}

/// The input-stream probe: it needs a connection; a sent ping gives the
/// time it took (capped at `u32::MAX` ms).
pub fn input_probe(connected: bool, sent: Result<(), DomainError>, elapsed_ms: u128) -> (p: ProbeResult)
    ensures
        p.service@ == "input_stream"@,
        p.ok == (connected && sent is Ok),
        p.latency_ms == (if connected && sent is Ok {
            Some((if elapsed_ms > u32::MAX { u32::MAX as int } else { elapsed_ms as int }) as u32)
        } else {
            None
        }),
        p.detail@ == (if !connected {
            "peer não conectado"@
        } else {
            match sent {
                Ok(()) => "ping Input enviado no stream"@,
                Err(e) => prefixed_text("input_stream_send_failed"@, e.message@),
            }
        }),
{
    if !connected {
        return failed_probe("input_stream", "peer não conectado".to_owned());
    }
    match sent {
        Ok(()) => ProbeResult {
            service: "input_stream".to_owned(),
            ok: true,
            latency_ms: Some(clamp_latency(elapsed_ms)),
            detail: "ping Input enviado no stream".to_owned(),
        },
        Err(e) => failed_probe("input_stream", prefixed("input_stream_send_failed", &e.message)),
    }
}

} // verus!
