use ed25519_dalek::{Signer, SigningKey};
use winx_application::crypto::{random_pin, verify_message_signature};
use winx_application::error::DomainErrorCode;
use winx_application::events::DomainEvent;
use winx_application::ids::{PeerId, SessionId};
use winx_application::pairing::{
    is_pin_format, matches_pin, remote_username, PairingRole, PairingSession, PairingSessions, PairingState,
    PIN_TTL_MS,
};

const PIN: [u8; 6] = [1, 2, 3, 4, 5, 6];

fn initiator(id: u128, peer: u128, now: u64) -> PairingSession {
    PairingSession::initiator(SessionId(id), PeerId(peer), [9u8; 32], PIN, now)
}

#[test]
fn pin_format_needs_six_digits() {
    assert!(is_pin_format("012345"));
    assert!(!is_pin_format("01234"));
    assert!(!is_pin_format("01234a"));
    assert!(!is_pin_format("0123456"));
    assert!(matches_pin("123456", &PIN));
    assert!(!matches_pin("123457", &PIN));
}

#[test]
fn random_pin_has_decimal_digits() {
    for _ in 0..20 {
        assert!(random_pin().iter().all(|d| *d < 10));
    }
}

#[test]
fn pin_expires_after_ttl() {
    let s = initiator(1, 2, 1_000);
    assert_eq!(s.expires_at_ms, 1_000 + PIN_TTL_MS);
    assert!(!s.is_expired(1_000 + PIN_TTL_MS - 1));
    assert!(s.is_expired(1_000 + PIN_TTL_MS));
    let late = initiator(1, 2, u64::MAX - 5);
    assert_eq!(late.expires_at_ms, u64::MAX);
}

#[test]
fn third_wrong_pin_fails_the_session() {
    let mut s = initiator(1, 2, 0);
    assert_eq!(s.verify_pin("000000", 10).unwrap_err().code, DomainErrorCode::PairingPinMismatch);
    assert_eq!(s.failed_attempts, 1);
    assert_eq!(s.verify_pin("000000", 10).unwrap_err().code, DomainErrorCode::PairingPinMismatch);
    assert_eq!(s.verify_pin("000000", 10).unwrap_err().code, DomainErrorCode::PairingTooManyAttempts);
    assert_eq!(s.state, PairingState::Failed);
    assert_eq!(s.verify_pin("123456", 10).unwrap_err().code, DomainErrorCode::PairingTooManyAttempts);
}

#[test]
fn right_pin_after_expiry_is_refused() {
    let mut s = initiator(1, 2, 0);
    assert_eq!(s.verify_pin("123456", PIN_TTL_MS).unwrap_err().code, DomainErrorCode::PairingPinExpired);
    assert!(s.verify_pin("123456", PIN_TTL_MS - 1).is_ok());
}

#[test]
fn one_session_per_peer() {
    let mut t = PairingSessions::new();
    assert!(t.start_initiator(initiator(1, 2, 0)).is_ok());
    let err = t.start_initiator(initiator(3, 2, 0)).unwrap_err();
    assert_eq!(err.code, DomainErrorCode::PairingSessionExists);
    assert_eq!(t.initiate(PeerId(2), 0).err().unwrap().code, DomainErrorCode::PairingSessionExists);
    assert!(t.has_session_with(PeerId(2)));
}

#[test]
fn a_session_with_a_reused_id_takes_its_place() {
    let mut t = PairingSessions::new();
    t.start_initiator(initiator(1, 2, 0)).unwrap();
    t.start_initiator(initiator(1, 5, 0)).unwrap();
    assert_eq!(t.get(SessionId(1)).unwrap().peer_id, PeerId(5));
    assert!(!t.has_session_with(PeerId(2)));
    assert!(t.has_session_with(PeerId(5)));
}

#[test]
fn initiate_makes_a_fresh_initiator_session() {
    let mut t = PairingSessions::new();
    let (s, secret) = t.initiate(PeerId(5), 100).ok().unwrap();
    let public = x25519_dalek::PublicKey::from(&x25519_dalek::StaticSecret::from(secret)).to_bytes();
    assert_eq!(s.ephemeral_public, public);
    assert_eq!(s.role, PairingRole::Initiator);
    assert_eq!(s.peer_id, PeerId(5));
    assert_eq!(s.expires_at_ms, 100 + PIN_TTL_MS);
    assert!(s.pin.unwrap().iter().all(|d| *d < 10));
    assert!(t.get(s.id).is_some());
}

#[test]
fn request_from_self_or_busy_peer_is_ignored() {
    let mut t = PairingSessions::new();
    let me = PeerId(1);
    assert!(t
        .receive_request(SessionId(10), me, [1; 32], [2; 32], me, "Me".into(), "FP".into(), 0)
        .is_none());
    let got = t.receive_request(SessionId(10), PeerId(2), [1; 32], [2; 32], me, "Bob".into(), "FP".into(), 0);
    let (ev, secret) = got.unwrap();
    let public = x25519_dalek::PublicKey::from(&x25519_dalek::StaticSecret::from(secret)).to_bytes();
    assert!(matches!(ev, DomainEvent::PairingIncoming { peer_id, .. } if peer_id == PeerId(2)));
    assert!(t
        .receive_request(SessionId(11), PeerId(2), [1; 32], [2; 32], me, "Bob".into(), "FP".into(), 0)
        .is_none());
    let s = t.get(SessionId(10)).unwrap();
    assert_eq!(s.ephemeral_public, public);
    assert_eq!(s.role, PairingRole::Responder);
    assert_eq!(s.initiator_pubkey, Some([2; 32]));
}

#[test]
fn submit_pin_checks() {
    let mut t = PairingSessions::new();
    t.receive_request(SessionId(10), PeerId(2), [1; 32], [2; 32], PeerId(1), "Bob".into(), "FP".into(), 0);
    assert_eq!(t.check_submit_pin(SessionId(99), "123456").unwrap_err().code, DomainErrorCode::PairingSessionNotFound);
    assert_eq!(t.check_submit_pin(SessionId(10), "12a456").unwrap_err().code, DomainErrorCode::PairingPinMismatch);
    let (peer, _eph) = t.check_submit_pin(SessionId(10), "123456").unwrap();
    assert_eq!(peer, PeerId(2));
    t.start_initiator(initiator(20, 3, 0)).unwrap();
    assert_eq!(t.check_submit_pin(SessionId(20), "123456").unwrap_err().code, DomainErrorCode::InternalError);
}

#[test]
fn signed_response_completes_the_initiator() {
    let key = SigningKey::from_bytes(&[7u8; 32]);
    let pubkey = key.verifying_key().to_bytes();
    let body = b"response body".to_vec();
    let sig = key.sign(&body).to_bytes();
    let mut t = PairingSessions::new();
    t.start_initiator(initiator(1, 2, 0)).unwrap();

    let err = t.accept_response(SessionId(1), "123456", &pubkey, &body, None, 5).unwrap_err();
    assert_eq!(err.code, DomainErrorCode::InternalError);
    let mut bad = sig;
    bad[0] ^= 1;
    let err = t.accept_response(SessionId(1), "123456", &pubkey, &body, Some(bad), 5).unwrap_err();
    assert_eq!(err.code, DomainErrorCode::InternalError);
    assert!(t.get(SessionId(1)).is_some());

    let err = t.accept_response(SessionId(1), "000000", &pubkey, &body, Some(sig), 5).unwrap_err();
    assert_eq!(err.code, DomainErrorCode::PairingPinMismatch);
    assert_eq!(t.get(SessionId(1)).unwrap().failed_attempts, 1);

    assert_eq!(t.accept_response(SessionId(1), "123456", &pubkey, &body, Some(sig), 5).unwrap(), PeerId(2));
    assert!(t.get(SessionId(1)).is_none());
}

#[test]
fn signature_check_uses_the_key_and_body() {
    let key = SigningKey::from_bytes(&[8u8; 32]);
    let pubkey = key.verifying_key().to_bytes();
    let sig = key.sign(b"abc").to_bytes();
    assert!(verify_message_signature(&pubkey, b"abc", &sig).is_ok());
    assert!(verify_message_signature(&pubkey, b"abd", &sig).is_err());
    let other = SigningKey::from_bytes(&[9u8; 32]).verifying_key().to_bytes();
    assert!(verify_message_signature(&other, b"abc", &sig).is_err());
}

#[test]
fn undecodable_key_is_named_in_the_error() {
    let bad = (0u8..=255)
        .map(|b| [b; 32])
        .find(|k| ed25519_dalek::VerifyingKey::from_bytes(k).is_err())
        .expect("some repeated byte is no curve point");
    let err = verify_message_signature(&bad, b"abc", &[0u8; 64]).unwrap_err();
    assert_eq!(err.code, DomainErrorCode::InternalError);
    assert!(err.message.starts_with("chave pública inválida: "));
}

#[test]
fn signed_confirm_completes_the_responder() {
    let initiator_key = SigningKey::from_bytes(&[4u8; 32]);
    let ipk = initiator_key.verifying_key().to_bytes();
    let mut t = PairingSessions::new();
    t.receive_request(SessionId(10), PeerId(2), [5; 32], ipk, PeerId(1), "Bob".into(), "FP".into(), 0);
    let body = b"confirm".to_vec();
    let sig = initiator_key.sign(&body).to_bytes();
    let wrong = SigningKey::from_bytes(&[6u8; 32]).sign(&body).to_bytes();
    assert_eq!(t.accept_confirm(SessionId(10), &body, None).unwrap_err().code, DomainErrorCode::InternalError);
    assert_eq!(t.accept_confirm(SessionId(10), &body, Some(wrong)).unwrap_err().code, DomainErrorCode::InternalError);
    assert_eq!(t.accept_confirm(SessionId(11), &body, Some(sig)).unwrap_err().code, DomainErrorCode::PairingSessionNotFound);
    let (peer, key, eph) = t.accept_confirm(SessionId(10), &body, Some(sig)).unwrap();
    assert_eq!((peer, key, eph), (PeerId(2), ipk, [5; 32]));
    assert!(t.get(SessionId(10)).is_none());
}

#[test]
fn cancel_and_peer_cancel() {
    let mut t = PairingSessions::new();
    t.start_initiator(initiator(1, 2, 0)).unwrap();
    t.start_initiator(initiator(3, 4, 0)).unwrap();
    let (s, ev) = t.cancel(SessionId(1)).unwrap();
    assert_eq!(s.state, PairingState::Cancelled);
    assert!(matches!(ev, DomainEvent::PairingCancelled { peer_id, .. } if peer_id == PeerId(2)));
    assert_eq!(t.cancel(SessionId(1)).unwrap_err().code, DomainErrorCode::PairingSessionNotFound);
    assert!(matches!(
        t.receive_cancel(SessionId(3)),
        Some(DomainEvent::PairingFailed { reason: DomainErrorCode::PairingPinExpired, .. })
    ));
    assert!(t.receive_cancel(SessionId(3)).is_none());
}

#[test]
fn expired_sessions_are_removed_and_announced() {
    let mut t = PairingSessions::new();
    t.start_initiator(initiator(1, 2, 0)).unwrap();
    t.start_initiator(initiator(3, 4, 50_000)).unwrap();
    let events = t.remove_expired(PIN_TTL_MS + 10);
    assert_eq!(events.len(), 1);
    assert!(matches!(events[0], DomainEvent::PairingFailed { session_id, .. } if session_id == SessionId(1)));
    assert!(t.get(SessionId(1)).is_none());
    assert!(t.get(SessionId(3)).is_some());
}

#[test]
fn remote_username_falls_back_to_the_id() {
    assert_eq!(remote_username(Some("A".into()), Some("B".into()), PeerId(1)), "A");
    assert_eq!(remote_username(None, Some("B".into()), PeerId(1)), "B");
    assert_eq!(remote_username(None, None, PeerId(1)), "00000000-0000-0000-0000-000000000001");
}
