//! Pairing: a six-digit PIN shown on the initiator and typed on the
//! responder establishes trust between two devices. A PIN expires after
//! 90 seconds, a peer has at most one session at a time, and a third wrong
//! PIN fails the session.

use vstd::prelude::*;
use vstd::string::StringSliceAdditionalSpecFns;
use crate::error::{fails_with, DomainError, DomainErrorCode};
use crate::events::DomainEvent;
use crate::ids::{PeerId, SessionId};
use crate::crypto::{
    ephemeral_public, new_ephemeral_secret, new_uuid, random_pin, signature_valid, verify_message_signature, x25519_public_of,
};
use crate::uuid_text::{uuid_hyphenated, uuid_to_string};

verus! {

/// How long a PIN stays valid, in milliseconds.
pub const PIN_TTL_MS: u64 = 90_000;

/// Wrong PINs a session tolerates before it fails.
pub const MAX_PIN_ATTEMPTS: u8 = 3;

/// Number of digits in a PIN.
pub const PIN_LEN: usize = 6;

/// Which side of the pairing this device is.
#[derive(Clone, Copy, Debug, PartialEq, Eq, Structural)]
pub enum PairingRole {
    Initiator,
    Responder,
}

/// Where a session stands.
#[derive(Clone, Copy, Debug, PartialEq, Eq, Structural)]
pub enum PairingState {
    AwaitingPin,
    Completed,
    Failed,
    Cancelled,
}

/// One pairing attempt with a peer.
#[derive(Clone, Copy, Debug)]
pub struct PairingSession {
    pub id: SessionId,
    pub role: PairingRole,
    pub peer_id: PeerId,
    /// The PIN digits; only the initiator knows them.
    pub pin: Option<[u8; 6]>,
    pub ephemeral_public: [u8; 32],
    pub peer_ephemeral_public: Option<[u8; 32]>,
    /// The initiator's long-term key, as the responder received it.
    pub initiator_pubkey: Option<[u8; 32]>,
    pub state: PairingState,
    pub failed_attempts: u8,
    /// When the PIN stops being valid, in milliseconds.
    pub expires_at_ms: u64,
}

/// `now + PIN_TTL_MS`, staying at `u64::MAX`.
pub open spec fn expiry_after(now_ms: u64) -> u64 {
    if now_ms as int + PIN_TTL_MS as int > u64::MAX as int { u64::MAX } else { (now_ms + PIN_TTL_MS) as u64 }
}

fn expiry(now_ms: u64) -> (r: u64)
    ensures
        r == expiry_after(now_ms),
{
    if now_ms > u64::MAX - PIN_TTL_MS { u64::MAX } else { now_ms + PIN_TTL_MS }
}

/// Whether every digit is below ten.
pub open spec fn pin_digits_valid(pin: [u8; 6]) -> bool {
    forall|i: int| 0 <= i < 6 ==> #[trigger] pin@[i] < 10
}

/// Whether the UTF-8 bytes of a text are six ASCII digits.
pub open spec fn is_pin_text(bytes: Seq<u8>) -> bool {
    bytes.len() == 6 && forall|i: int| 0 <= i < 6 ==> 48 <= #[trigger] bytes[i] <= 57
}

/// Whether the UTF-8 bytes of a text spell the PIN.
pub open spec fn spells_pin(bytes: Seq<u8>, pin: [u8; 6]) -> bool {
    bytes.len() == 6 && forall|i: int| 0 <= i < 6 ==> #[trigger] bytes[i] == 48 + pin@[i]
}

/// Whether the text is six ASCII digits.
pub fn is_pin_format(input: &str) -> (b: bool)
    ensures
        b == is_pin_text(input.spec_bytes()),
{
    let bytes = input.as_bytes();
    if bytes.len() != 6 {
        return false;
    }
    let mut i: usize = 0;
    while i < 6
        invariant
            i <= 6,
            bytes@ == input.spec_bytes(),
            bytes@.len() == 6,
            forall|k: int| 0 <= k < i ==> 48 <= #[trigger] bytes@[k] <= 57,
        decreases 6 - i,
    {
        if bytes[i] < 48 || bytes[i] > 57 {
            return false;
        }
        i = i + 1;
    }
    true
}

/// Whether the text spells the PIN.
pub fn matches_pin(input: &str, pin: &[u8; 6]) -> (b: bool)
    ensures
        b == spells_pin(input.spec_bytes(), *pin),
{
    let bytes = input.as_bytes();
    if bytes.len() != 6 {
        return false;
    }
    let mut i: usize = 0;
    while i < 6
        invariant
            i <= 6,
            bytes@ == input.spec_bytes(),
            bytes@.len() == 6,
            pin@.len() == 6,
            forall|k: int| 0 <= k < i ==> #[trigger] bytes@[k] == 48 + pin@[k],
        decreases 6 - i,
    {
        if bytes[i] as u16 != 48u16 + pin[i] as u16 {
            return false;
        }
        i = i + 1;
    }
    true
}

/// The outcome of checking a PIN against a session.
pub open spec fn verify_pin_post(old_s: PairingSession, new_s: PairingSession, input: Seq<u8>, now_ms: u64, r: Result<(), DomainError>) -> bool {
    if old_s.state == PairingState::Failed {
        fails_with(r, DomainErrorCode::PairingTooManyAttempts) && new_s == old_s
    } else if old_s.state != PairingState::AwaitingPin || old_s.pin is None {
        fails_with(r, DomainErrorCode::InternalError) && new_s == old_s
    } else if now_ms >= old_s.expires_at_ms {
        fails_with(r, DomainErrorCode::PairingPinExpired) && new_s == old_s
    } else if spells_pin(input, old_s.pin->0) {
        r is Ok && new_s == old_s
    } else if old_s.failed_attempts as int + 1 >= MAX_PIN_ATTEMPTS as int {
        fails_with(r, DomainErrorCode::PairingTooManyAttempts) && new_s == (PairingSession {
            failed_attempts: MAX_PIN_ATTEMPTS,
            state: PairingState::Failed,
            ..old_s
        })
    } else {
        fails_with(r, DomainErrorCode::PairingPinMismatch) && new_s == (PairingSession {
            failed_attempts: (old_s.failed_attempts + 1) as u8,
            ..old_s
        })
    }
}

impl PairingSession {
    /// The initiator's session: it shows `pin` until `now + PIN_TTL_MS`.
    pub fn initiator(id: SessionId, peer_id: PeerId, ephemeral_public: [u8; 32], pin: [u8; 6], now_ms: u64) -> (s: Self)
        ensures
            s == (PairingSession {
                id,
                role: PairingRole::Initiator,
                peer_id,
                pin: Some(pin),
                ephemeral_public,
                peer_ephemeral_public: None,
                initiator_pubkey: None,
                state: PairingState::AwaitingPin,
                failed_attempts: 0,
                expires_at_ms: expiry_after(now_ms),
            }),
    {
        PairingSession {
            id,
            role: PairingRole::Initiator,
            peer_id,
            pin: Some(pin),
            ephemeral_public,
            peer_ephemeral_public: None,
            initiator_pubkey: None,
            state: PairingState::AwaitingPin,
            failed_attempts: 0,
            expires_at_ms: expiry(now_ms),
        }
    }

    /// The responder's session for a request it received.
    pub fn responder(
        id: SessionId,
        initiator: PeerId,
        initiator_ephemeral: [u8; 32],
        own_ephemeral: [u8; 32],
        initiator_pubkey: [u8; 32],
        now_ms: u64,
    ) -> (s: Self)
        ensures
            s == (PairingSession {
                id,
                role: PairingRole::Responder,
                peer_id: initiator,
                pin: None,
                ephemeral_public: own_ephemeral,
                peer_ephemeral_public: Some(initiator_ephemeral),
                initiator_pubkey: Some(initiator_pubkey),
                state: PairingState::AwaitingPin,
                failed_attempts: 0,
                expires_at_ms: expiry_after(now_ms),
            }),
    {
        PairingSession {
            id,
            role: PairingRole::Responder,
            peer_id: initiator,
            pin: None,
            ephemeral_public: own_ephemeral,
            peer_ephemeral_public: Some(initiator_ephemeral),
            initiator_pubkey: Some(initiator_pubkey),
            state: PairingState::AwaitingPin,
            failed_attempts: 0,
            expires_at_ms: expiry(now_ms),
        }
    }

    /// Whether the PIN is no longer valid at `now_ms`.
    pub fn is_expired(&self, now_ms: u64) -> (b: bool)
        ensures
            b == (now_ms >= self.expires_at_ms),
    {
        now_ms >= self.expires_at_ms
    }

    /// Checks the PIN the responder typed (see [`verify_pin_post`]): a
    /// wrong PIN counts an attempt, and the third one fails the session.
    pub fn verify_pin(&mut self, input: &str, now_ms: u64) -> (r: Result<(), DomainError>)
        ensures
            verify_pin_post(*old(self), *final(self), input.spec_bytes(), now_ms, r),
    {
        if self.state == PairingState::Failed {
            return Err(DomainError::new(DomainErrorCode::PairingTooManyAttempts, "tentativas de PIN esgotadas"));
        }
        let pin = match self.pin {
            Some(p) => p,
            None => {
                return Err(DomainError::new(DomainErrorCode::InternalError, "sessão sem PIN deste lado"));
            },
        };
        if self.state != PairingState::AwaitingPin {
            return Err(DomainError::new(DomainErrorCode::InternalError, "sessão não aguarda PIN"));
        }
        if now_ms >= self.expires_at_ms {
            return Err(DomainError::new(DomainErrorCode::PairingPinExpired, "PIN expirado"));
        }
        if matches_pin(input, &pin) {
            return Ok(());
        }
        if self.failed_attempts as u16 + 1 >= MAX_PIN_ATTEMPTS as u16 {
            self.failed_attempts = MAX_PIN_ATTEMPTS;
            self.state = PairingState::Failed;
            Err(DomainError::new(DomainErrorCode::PairingTooManyAttempts, "tentativas de PIN esgotadas"))
        } else {
            self.failed_attempts = self.failed_attempts + 1;
            Err(DomainError::new(DomainErrorCode::PairingPinMismatch, "PIN incorreto"))
        }
    }
}

/// Whether no session id occurs twice and no peer has two sessions.
pub open spec fn sessions_wf(s: Seq<PairingSession>) -> bool {
    forall|i: int, j: int| 0 <= i < j < s.len() ==> s[i].id != s[j].id && s[i].peer_id != s[j].peer_id
}

/// Whether some session has this id.
pub open spec fn has_session(s: Seq<PairingSession>, id: SessionId) -> bool {
    exists|i: int| 0 <= i < s.len() && s[i].id == id
}

/// Whether some session is with this peer.
pub open spec fn has_peer_session(s: Seq<PairingSession>, p: PeerId) -> bool {
    exists|i: int| 0 <= i < s.len() && s[i].peer_id == p
}

/// The session with this id (meaningful when there is one).
pub open spec fn session_of(s: Seq<PairingSession>, id: SessionId) -> PairingSession {
    s[choose|i: int| 0 <= i < s.len() && s[i].id == id]
}

/// The sessions after `x` is kept: it takes the place of the session with
/// its id, or comes last when there is none.
pub open spec fn put_session(s: Seq<PairingSession>, x: PairingSession) -> Seq<PairingSession> {
    if has_session(s, x.id) {
        s.update(choose|i: int| 0 <= i < s.len() && s[i].id == x.id, x)
    } else {
        s.push(x)
    }
}

/// The sessions but the one with this id.
pub open spec fn without_session(s: Seq<PairingSession>, id: SessionId) -> Seq<PairingSession> {
    s.remove(choose|i: int| 0 <= i < s.len() && s[i].id == id)
}

/// The sessions with the one of this id replaced by `v`.
pub open spec fn with_session(s: Seq<PairingSession>, id: SessionId, v: PairingSession) -> Seq<PairingSession> {
    s.update(choose|i: int| 0 <= i < s.len() && s[i].id == id, v)
}

/// Whether a pairing request is ignored: it comes from this device, its
/// session id is known, or its peer already has a session.
pub open spec fn request_ignored(s: Seq<PairingSession>, id: SessionId, initiator: PeerId, local: PeerId) -> bool {
    initiator == local || has_session(s, id) || has_peer_session(s, initiator)
}

/// Whether `s` is the responder's fresh session for a request (its own
/// ephemeral key is random, so it is left open).
pub open spec fn responder_session_for(
    s: PairingSession,
    id: SessionId,
    initiator: PeerId,
    initiator_ephemeral: [u8; 32],
    initiator_pubkey: [u8; 32],
    now_ms: u64,
) -> bool {
    s == PairingSession {
        id,
        role: PairingRole::Responder,
        peer_id: initiator,
        pin: None,
        ephemeral_public: s.ephemeral_public,
        peer_ephemeral_public: Some(initiator_ephemeral),
        initiator_pubkey: Some(initiator_pubkey),
        state: PairingState::AwaitingPin,
        failed_attempts: 0,
        expires_at_ms: expiry_after(now_ms),
    }
}

/// What receiving the responder's PIN does: an unknown session is
/// `PairingSessionNotFound`, one that is not the initiator's is an
/// `InternalError`; otherwise the PIN is checked as in [`verify_pin_post`],
/// a right PIN removes the session and gives its peer, a wrong one keeps
/// the session with its attempt counted.
pub open spec fn response_post(
    old_s: Seq<PairingSession>,
    new_s: Seq<PairingSession>,
    id: SessionId,
    pin: Seq<u8>,
    now_ms: u64,
    r: Result<PeerId, DomainError>,
) -> bool {
    if !has_session(old_s, id) {
        fails_with(r, DomainErrorCode::PairingSessionNotFound) && new_s == old_s
    } else if session_of(old_s, id).role != PairingRole::Initiator {
        fails_with(r, DomainErrorCode::InternalError) && new_s == old_s
    } else {
        exists|s1: PairingSession, rv: Result<(), DomainError>|
            verify_pin_post(session_of(old_s, id), s1, pin, now_ms, rv) && match rv {
                Ok(()) => r == Ok::<PeerId, DomainError>(s1.peer_id) && new_s == without_session(old_s, id),
                Err(e) => r == Err::<PeerId, DomainError>(e) && new_s == with_session(old_s, id, s1),
            }
    }
}

/// The sessions whose PIN is still valid at `now_ms`, in order.
pub open spec fn live_sessions(s: Seq<PairingSession>, now_ms: u64) -> Seq<PairingSession>
    decreases s.len(),
{
    if s.len() == 0 {
        Seq::empty()
    } else {
        let rest = live_sessions(s.drop_last(), now_ms);
        if now_ms >= s.last().expires_at_ms {
            rest
        } else {
            rest.push(s.last())
        }
    }
}

/// The `PairingFailed` events announcing the sessions expired at `now_ms`, in order.
pub open spec fn expiry_events(s: Seq<PairingSession>, now_ms: u64) -> Seq<DomainEvent>
    decreases s.len(),
{
    if s.len() == 0 {
        Seq::empty()
    } else {
        let rest = expiry_events(s.drop_last(), now_ms);
        if now_ms >= s.last().expires_at_ms {
            rest.push(
                DomainEvent::PairingFailed {
                    session_id: s.last().id,
                    peer_id: s.last().peer_id,
                    reason: DomainErrorCode::PairingPinExpired,
                },
            )
        } else {
            rest
        }
    }
}

/// Keeping the live sessions keeps ids and peers distinct, and keeps
/// only sessions that were there.
proof fn lemma_live_sessions(s: Seq<PairingSession>, now_ms: u64)
    requires
        sessions_wf(s),
    ensures
        sessions_wf(live_sessions(s, now_ms)),
        forall|x: PairingSession| live_sessions(s, now_ms).contains(x) ==> s.contains(x),
    decreases s.len(),
{
    if s.len() > 0 {
        let p = s.drop_last();
        let l = s.last();
        assert forall|a: int, b: int| 0 <= a < b < p.len() implies p[a].id != p[b].id && p[a].peer_id != p[b].peer_id by {
            assert(p[a] == s[a] && p[b] == s[b]);
        }
        lemma_live_sessions(p, now_ms);
        let lp = live_sessions(p, now_ms);
        if now_ms < l.expires_at_ms {
            let ls = lp.push(l);
            assert forall|a: int, b: int| 0 <= a < b < ls.len() implies ls[a].id != ls[b].id && ls[a].peer_id
                != ls[b].peer_id by {
                if b == ls.len() - 1 {
                    assert(ls[a] == lp[a]);
                    assert(lp.contains(ls[a]));
                    assert(p.contains(ls[a]));
                    let j = choose|j: int| 0 <= j < p.len() && p[j] == ls[a];
                    assert(s[j] == p[j]);
                    assert(s[s.len() - 1] == l);
                } else {
                    assert(ls[a] == lp[a] && ls[b] == lp[b]);
                }
            }
            assert forall|x: PairingSession| ls.contains(x) implies s.contains(x) by {
                if x == l {
                    assert(s[s.len() - 1] == x);
                } else {
                    let k = choose|k: int| 0 <= k < ls.len() && ls[k] == x;
                    assert(lp[k] == x);
                    assert(lp.contains(x));
                    assert(p.contains(x));
                    let j = choose|j: int| 0 <= j < p.len() && p[j] == x;
                    assert(s[j] == x);
                }
            }
        } else {
            assert forall|x: PairingSession| lp.contains(x) implies s.contains(x) by {
                assert(p.contains(x));
                let j = choose|j: int| 0 <= j < p.len() && p[j] == x;
                assert(s[j] == x);
            }
        }
    }
}

/// Whether a confirmation is taken for a session: it is the responder's,
/// knows the initiator's key, and the signature verifies against that key.
pub open spec fn confirm_accepted(s: PairingSession, body: Seq<u8>, sig: Seq<u8>) -> bool {
    s.role == PairingRole::Responder && s.initiator_pubkey is Some && signature_valid(s.initiator_pubkey->0@, body, sig)
}

/// The pairing sessions in progress on this device.
pub struct PairingSessions {
    sessions: Vec<PairingSession>,
}

impl View for PairingSessions {
    type V = Seq<PairingSession>;

    closed spec fn view(&self) -> Seq<PairingSession> {
        self.sessions@
    }
}

impl PairingSessions {
    /// No session in progress.
    pub fn new() -> (t: Self)
        ensures
            t@.len() == 0,
    {
        PairingSessions { sessions: Vec::new() }
    }

    /// Index of the session with this id.
    fn index_of(&self, id: SessionId) -> (r: Option<usize>)
        requires
            sessions_wf(self@),
        ensures
            match r {
                Some(i) => i < self@.len() && self@[i as int].id == id
                    && (forall|j: int| #![auto] 0 <= j < self@.len() && self@[j].id == id ==> j == i),
                None => !has_session(self@, id),
            },
    {
        let mut i: usize = 0;
        while i < self.sessions.len()
            invariant
                i <= self.sessions@.len(),
                sessions_wf(self@),
                forall|k: int| 0 <= k < i ==> self@[k].id != id,
            decreases self.sessions@.len() - i,
        {
            if self.sessions[i].id == id {
                return Some(i);
            }
            i = i + 1;
        }
        None
    }

    /// Whether some session is with this peer.
    pub fn has_session_with(&self, peer: PeerId) -> (b: bool)
        ensures
            b == has_peer_session(self@, peer),
    {
        let mut i: usize = 0;
        while i < self.sessions.len()
            invariant
                i <= self.sessions@.len(),
                forall|k: int| 0 <= k < i ==> self@[k].peer_id != peer,
            decreases self.sessions@.len() - i,
        {
            if self.sessions[i].peer_id == peer {
                return true;
            }
            i = i + 1;
        }
        false
    }

    /// The session with this id, if any.
    pub fn get(&self, id: SessionId) -> (r: Option<PairingSession>)
        requires
            sessions_wf(self@),
        ensures
            has_session(self@, id) ==> r == Some(session_of(self@, id)),
            !has_session(self@, id) ==> r is None,
    {
        match self.index_of(id) {
            Some(i) => Some(self.sessions[i]),
            None => None,
        }
    }

    /// Starts a session as initiator. Refused with `PairingSessionExists`
    /// when the peer already has a session; otherwise the session is kept,
    /// in place of any session with the same id.
    pub fn start_initiator(&mut self, session: PairingSession) -> (r: Result<(), DomainError>)
        requires
            sessions_wf(old(self)@),
        ensures
            sessions_wf(final(self)@),
            has_peer_session(old(self)@, session.peer_id) ==> fails_with(r, DomainErrorCode::PairingSessionExists)
                && final(self)@ == old(self)@,
            !has_peer_session(old(self)@, session.peer_id) ==> r is Ok && final(self)@ == put_session(old(self)@, session),
    {
        if self.has_session_with(session.peer_id) {
            return Err(DomainError::new(DomainErrorCode::PairingSessionExists, "já existe sessão ativa para este peer"));
        }
        match self.index_of(session.id) {
            Some(i) => {
                self.sessions.set(i, session);
                proof {
                    let old_s = old(self)@;
                    let j = choose|j: int| 0 <= j < old_s.len() && old_s[j].id == session.id;
                    assert(j == i);
                    assert(self@ =~= old_s.update(i as int, session));
                    assert forall|a: int, b: int| 0 <= a < b < self@.len() implies self@[a].id != self@[b].id
                        && self@[a].peer_id != self@[b].peer_id by {
                        if a == i {
                            assert(old_s[b].peer_id != session.peer_id);
                        } else if b == i {
                            assert(old_s[a].peer_id != session.peer_id);
                        }
                    }
                }
            },
            None => {
                self.sessions.push(session);
                proof {
                    let old_s = old(self)@;
                    assert forall|a: int, b: int| 0 <= a < b < self@.len() implies self@[a].id != self@[b].id
                        && self@[a].peer_id != self@[b].peer_id by {
                        if b == old_s.len() {
                            assert(self@[a] == old_s[a]);
                        } else {
                            assert(self@[a] == old_s[a] && self@[b] == old_s[b]);
                        }
                    }
                }
            },
        }
        Ok(())
    }

    /// A pairing request arrived. Requests from this very device, for a
    /// session id already known, or from a peer that already has a session,
    /// are ignored. Otherwise a fresh ephemeral key is made, the responder
    /// session is kept and announced, and the ephemeral secret is handed out.
    pub fn receive_request(
        &mut self,
        session_id: SessionId,
        initiator: PeerId,
        initiator_ephemeral: [u8; 32],
        initiator_pubkey: [u8; 32],
        local_peer: PeerId,
        peer_username: String,
        initiator_fingerprint: String,
        now_ms: u64,
    ) -> (r: Option<(DomainEvent, [u8; 32])>)
        requires
            sessions_wf(old(self)@),
        ensures
            sessions_wf(final(self)@),
            request_ignored(old(self)@, session_id, initiator, local_peer) ==> r is None && final(self)@ == old(self)@,
            !request_ignored(old(self)@, session_id, initiator, local_peer) ==> (r matches Some((ev, secret)) && ev == (
            DomainEvent::PairingIncoming {
                session_id,
                peer_id: initiator,
                peer_username,
                initiator_fingerprint: Some(initiator_fingerprint),
            }) && final(self)@.last().ephemeral_public@ == x25519_public_of(secret@)) && final(self)@.len()
                == old(self)@.len() + 1 && final(self)@.drop_last() == old(self)@ && responder_session_for(
                final(self)@.last(),
                session_id,
                initiator,
                initiator_ephemeral,
                initiator_pubkey,
                now_ms,
            ),
    {
        if initiator == local_peer {
            return None;
        }
        if self.index_of(session_id).is_some() || self.has_session_with(initiator) {
            return None;
        }
        let secret = new_ephemeral_secret();
        let public = ephemeral_public(&secret);
        let session = PairingSession::responder(session_id, initiator, initiator_ephemeral, public, initiator_pubkey, now_ms);
        self.sessions.push(session);
        proof {
            assert(self@.drop_last() =~= old(self)@);
        }
        Some((DomainEvent::PairingIncoming {
            session_id,
            peer_id: initiator,
            peer_username,
            initiator_fingerprint: Some(initiator_fingerprint),
        }, secret))
    }

    /// The responder's checks before it sends the typed PIN: the session
    /// exists (`PairingSessionNotFound`), this side is the responder
    /// (`InternalError`) and the PIN is six ASCII digits (`PairingPinMismatch`).
    /// On success, the peer and this side's ephemeral key are handed out.
    pub fn check_submit_pin(&self, id: SessionId, pin_input: &str) -> (r: Result<(PeerId, [u8; 32]), DomainError>)
        requires
            sessions_wf(self@),
        ensures
            !has_session(self@, id) ==> fails_with(r, DomainErrorCode::PairingSessionNotFound),
            has_session(self@, id) && session_of(self@, id).role != PairingRole::Responder ==> fails_with(
                r,
                DomainErrorCode::InternalError,
            ),
            has_session(self@, id) && session_of(self@, id).role == PairingRole::Responder && !is_pin_text(
                pin_input.spec_bytes(),
            ) ==> fails_with(r, DomainErrorCode::PairingPinMismatch),
            has_session(self@, id) && session_of(self@, id).role == PairingRole::Responder && is_pin_text(
                pin_input.spec_bytes(),
            ) ==> r == Ok::<(PeerId, [u8; 32]), DomainError>(
                (session_of(self@, id).peer_id, session_of(self@, id).ephemeral_public),
            ),
    {
        let s = match self.get(id) {
            Some(s) => s,
            None => {
                return Err(DomainError::new(DomainErrorCode::PairingSessionNotFound, "sessão não encontrada"));
            },
        };
        if s.role != PairingRole::Responder {
            return Err(DomainError::new(DomainErrorCode::InternalError, "submit_pin só é válido no lado responder"));
        }
        if !is_pin_format(pin_input) {
            return Err(DomainError::new(DomainErrorCode::PairingPinMismatch, "PIN deve ter 6 dígitos"));
        }
        Ok((s.peer_id, s.ephemeral_public))
    }

    /// The user cancelled a session: it goes, and that is announced. An
    /// unknown session is refused with `PairingSessionNotFound`. The removed
    /// session is handed out (an initiator tells the peer).
    pub fn cancel(&mut self, id: SessionId) -> (r: Result<(PairingSession, DomainEvent), DomainError>)
        requires
            sessions_wf(old(self)@),
        ensures
            sessions_wf(final(self)@),
            !has_session(old(self)@, id) ==> fails_with(r, DomainErrorCode::PairingSessionNotFound)
                && final(self)@ == old(self)@,
            has_session(old(self)@, id) ==> final(self)@ == without_session(old(self)@, id) && r == Ok::<
                (PairingSession, DomainEvent),
                DomainError,
            >(
                (
                    PairingSession { state: PairingState::Cancelled, ..session_of(old(self)@, id) },
                    DomainEvent::PairingCancelled { session_id: id, peer_id: session_of(old(self)@, id).peer_id },
                ),
            ),
    {
        match self.index_of(id) {
            None => Err(DomainError::new(DomainErrorCode::PairingSessionNotFound, "sessão não encontrada")),
            Some(i) => {
                let mut s = self.sessions.remove(i);
                s.state = PairingState::Cancelled;
                let peer_id = s.peer_id;
                Ok((s, DomainEvent::PairingCancelled { session_id: id, peer_id }))
            },
        }
    }

    /// The responder's PIN arrived at the initiator (its signature already
    /// checked). The session must exist (`PairingSessionNotFound`) and be
    /// the initiator's (`InternalError`); the PIN is checked as in
    /// [`verify_pin_post`]. A right PIN completes and removes the session and
    /// hands out the peer; a wrong one leaves the session with its attempt
    /// counted.
    pub fn receive_response(
        &mut self,
        id: SessionId,
        pin_input: &str,
        now_ms: u64,
    ) -> (r: Result<PeerId, DomainError>)
        requires
            sessions_wf(old(self)@),
        ensures
            sessions_wf(final(self)@),
            response_post(old(self)@, final(self)@, id, pin_input.spec_bytes(), now_ms, r),
    {
        let i = match self.index_of(id) {
            Some(i) => i,
            None => {
                return Err(DomainError::new(DomainErrorCode::PairingSessionNotFound, "sessão initiator não encontrada"));
            },
        };
        let mut s = self.sessions[i];
        if s.role != PairingRole::Initiator {
            return Err(DomainError::new(DomainErrorCode::InternalError, "response recebida em sessão não-initiator"));
        }
        let ghost s0 = s;
        let rv = s.verify_pin(pin_input, now_ms);
        match rv {
            Ok(()) => {
                self.sessions.remove(i);
                assert(verify_pin_post(s0, s, pin_input.spec_bytes(), now_ms, Ok::<(), DomainError>(())));
                Ok(s.peer_id)
            },
            Err(e) => {
                self.sessions.set(i, s);
                proof {
                    assert(s.id == s0.id && s.peer_id == s0.peer_id);
                    assert forall|a: int, b: int| 0 <= a < b < self@.len() implies self@[a].id != self@[b].id
                        && self@[a].peer_id != self@[b].peer_id by {
                        assert(old(self)@[a].id != old(self)@[b].id);
                    }
                    assert(verify_pin_post(s0, s, pin_input.spec_bytes(), now_ms, Err::<(), DomainError>(e)));
                }
                Err(e)
            },
        }
    }

    /// The responder's checks when the initiator's confirmation arrives: the
    /// session exists (`PairingSessionNotFound`), is the responder's and
    /// knows the initiator's key (`InternalError`). Hands out the peer and
    /// that key, which must have signed the confirmation.
    pub fn confirm_signer(&self, id: SessionId) -> (r: Result<(PeerId, [u8; 32]), DomainError>)
        requires
            sessions_wf(self@),
        ensures
            !has_session(self@, id) ==> fails_with(r, DomainErrorCode::PairingSessionNotFound),
            has_session(self@, id) && (session_of(self@, id).role != PairingRole::Responder || session_of(
                self@,
                id,
            ).initiator_pubkey is None) ==> fails_with(r, DomainErrorCode::InternalError),
            has_session(self@, id) && session_of(self@, id).role == PairingRole::Responder && session_of(
                self@,
                id,
            ).initiator_pubkey is Some ==> r == Ok::<(PeerId, [u8; 32]), DomainError>(
                (session_of(self@, id).peer_id, session_of(self@, id).initiator_pubkey->0),
            ),
    {
        let s = match self.get(id) {
            Some(s) => s,
            None => {
                return Err(DomainError::new(DomainErrorCode::PairingSessionNotFound, "sessão responder não encontrada"));
            },
        };
        if s.role != PairingRole::Responder {
            return Err(DomainError::new(DomainErrorCode::InternalError, "confirm recebido em sessão não-responder"));
        }
        match s.initiator_pubkey {
            Some(k) => Ok((s.peer_id, k)),
            None => Err(DomainError::new(DomainErrorCode::InternalError, "initiator_pubkey ausente na sessão")),
        }
    }

    /// The confirmation checked out: the responder's session goes and is
    /// handed out. An unknown session is refused with
    /// `PairingSessionNotFound`.
    pub fn finish_confirm(&mut self, id: SessionId) -> (r: Result<PairingSession, DomainError>)
        requires
            sessions_wf(old(self)@),
        ensures
            sessions_wf(final(self)@),
            !has_session(old(self)@, id) ==> fails_with(r, DomainErrorCode::PairingSessionNotFound)
                && final(self)@ == old(self)@,
            has_session(old(self)@, id) ==> r == Ok::<PairingSession, DomainError>(session_of(old(self)@, id))
                && final(self)@ == without_session(old(self)@, id),
    {
        match self.index_of(id) {
            None => Err(DomainError::new(DomainErrorCode::PairingSessionNotFound, "sessão já removida")),
            Some(i) => Ok(self.sessions.remove(i)),
        }
    }

    /// The peer cancelled: a known session goes, announced as failed with
    /// `PairingPinExpired`; an unknown one changes nothing.
    pub fn receive_cancel(&mut self, id: SessionId) -> (r: Option<DomainEvent>)
        requires
            sessions_wf(old(self)@),
        ensures
            sessions_wf(final(self)@),
            !has_session(old(self)@, id) ==> r is None && final(self)@ == old(self)@,
            has_session(old(self)@, id) ==> final(self)@ == without_session(old(self)@, id) && r == Some(
                DomainEvent::PairingFailed {
                    session_id: id,
                    peer_id: session_of(old(self)@, id).peer_id,
                    reason: DomainErrorCode::PairingPinExpired,
                },
            ),
    {
        match self.index_of(id) {
            None => None,
            Some(i) => {
                let s = self.sessions.remove(i);
                Some(DomainEvent::PairingFailed { session_id: id, peer_id: s.peer_id, reason: DomainErrorCode::PairingPinExpired })
            },
        }
    }
}

impl PairingSessions {
    /// Starts pairing as initiator with `peer_id`: a random session id,
    /// PIN and ephemeral key are made, the session is kept and handed out
    /// with its ephemeral secret (in place of any session that drew the same
    /// id). Refused with `PairingSessionExists` exactly when the peer already
    /// has a session.
    pub fn initiate(&mut self, peer_id: PeerId, now_ms: u64) -> (r: Result<(PairingSession, [u8; 32]), DomainError>)
        requires
            sessions_wf(old(self)@),
        ensures
            sessions_wf(final(self)@),
            r is Err <==> has_peer_session(old(self)@, peer_id),
            r is Err ==> r->Err_0.code == DomainErrorCode::PairingSessionExists && final(self)@ == old(self)@,
            r matches Ok((s, secret)) ==> {
                &&& s.ephemeral_public@ == x25519_public_of(secret@)
                &&& final(self)@ == put_session(old(self)@, s)
                &&& s.peer_id == peer_id
                &&& s.role == PairingRole::Initiator
                &&& s.pin matches Some(p) && pin_digits_valid(p)
                &&& s.peer_ephemeral_public is None
                &&& s.initiator_pubkey is None
                &&& s.state == PairingState::AwaitingPin
                &&& s.failed_attempts == 0
                &&& s.expires_at_ms == expiry_after(now_ms)
            },
    {
        if self.has_session_with(peer_id) {
            return Err(DomainError::new(DomainErrorCode::PairingSessionExists, "já existe sessão ativa para este peer"));
        }
        let secret = new_ephemeral_secret();
        let public = ephemeral_public(&secret);
        let id = SessionId(new_uuid());
        let pin = random_pin();
        let session = PairingSession::initiator(id, peer_id, public, pin, now_ms);
        match self.start_initiator(session) {
            Ok(()) => Ok((session, secret)),
            Err(e) => Err(e),
        }
    }

    /// Drops the sessions whose PIN expired at `now_ms` and announces each
    /// with a `PairingFailed` event (`PairingPinExpired`).
    pub fn remove_expired(&mut self, now_ms: u64) -> (events: Vec<DomainEvent>)
        requires
            sessions_wf(old(self)@),
        ensures
            sessions_wf(final(self)@),
            final(self)@ == live_sessions(old(self)@, now_ms),
            events@ == expiry_events(old(self)@, now_ms),
    {
        let mut kept: Vec<PairingSession> = Vec::new();
        let mut events: Vec<DomainEvent> = Vec::new();
        let mut i: usize = 0;
        while i < self.sessions.len()
            invariant
                i <= self.sessions@.len(),
                self@ == old(self)@,
                kept@ == live_sessions(self@.take(i as int), now_ms),
                events@ == expiry_events(self@.take(i as int), now_ms),
            decreases self.sessions@.len() - i,
        {
            let s = self.sessions[i];
            proof {
                assert(self@.take(i + 1).drop_last() =~= self@.take(i as int));
            }
            if now_ms >= s.expires_at_ms {
                events.push(DomainEvent::PairingFailed { session_id: s.id, peer_id: s.peer_id, reason: DomainErrorCode::PairingPinExpired });
            } else {
                kept.push(s);
            }
            i = i + 1;
        }
        proof {
            assert(self@.take(self@.len() as int) =~= self@);
            lemma_live_sessions(self@, now_ms);
        }
        self.sessions = kept;
        events
    }

    /// The responder's signed PIN reached the initiator: the signature must
    /// be there and verify against the responder's key over the message
    /// body (`InternalError` otherwise); then the PIN is taken as in
    /// [`response_post`].
    pub fn accept_response(
        &mut self,
        id: SessionId,
        pin_input: &str,
        responder_pubkey: &[u8; 32],
        body: &[u8],
        signature: Option<[u8; 64]>,
        now_ms: u64,
    ) -> (r: Result<PeerId, DomainError>)
        requires
            sessions_wf(old(self)@),
        ensures
            sessions_wf(final(self)@),
            !(signature matches Some(sig) && signature_valid(responder_pubkey@, body@, sig@)) ==> fails_with(
                r,
                DomainErrorCode::InternalError,
            ) && final(self)@ == old(self)@,
            (signature matches Some(sig) && signature_valid(responder_pubkey@, body@, sig@)) ==> response_post(
                old(self)@,
                final(self)@,
                id,
                pin_input.spec_bytes(),
                now_ms,
                r,
            ),
    {
        let sig = match signature {
            Some(sig) => sig,
            None => {
                return Err(DomainError::new(DomainErrorCode::InternalError, "PairingResponse sem assinatura"));
            },
        };
        match verify_message_signature(responder_pubkey, body, &sig) {
            Ok(()) => {},
            Err(e) => {
                return Err(e);
            },
        }
        self.receive_response(id, pin_input, now_ms)
    }

    /// The initiator's signed confirmation reached the responder. A missing
    /// signature is an `InternalError`; the session is checked as in
    /// [`PairingSessions::confirm_signer`]; the signature must verify
    /// against the initiator's key (`InternalError`). Then the session goes;
    /// the peer, the initiator's key and the initiator's ephemeral key are
    /// handed out (a session without that ephemeral key is an `InternalError`,
    /// the session gone all the same).
    pub fn accept_confirm(&mut self, id: SessionId, body: &[u8], signature: Option<[u8; 64]>) -> (r: Result<
        (PeerId, [u8; 32], [u8; 32]),
        DomainError,
    >)
        requires
            sessions_wf(old(self)@),
        ensures
            sessions_wf(final(self)@),
            signature is None ==> fails_with(r, DomainErrorCode::InternalError) && final(self)@ == old(self)@,
            signature is Some && !has_session(old(self)@, id) ==> fails_with(r, DomainErrorCode::PairingSessionNotFound)
                && final(self)@ == old(self)@,
            signature is Some && has_session(old(self)@, id) && !confirm_accepted(session_of(old(self)@, id), body@, signature->0@)
                ==> fails_with(r, DomainErrorCode::InternalError) && final(self)@ == old(self)@,
            signature is Some && has_session(old(self)@, id) && confirm_accepted(session_of(old(self)@, id), body@, signature->0@)
                ==> final(self)@ == without_session(old(self)@, id) && match session_of(old(self)@, id).peer_ephemeral_public {
                Some(e) => r == Ok::<(PeerId, [u8; 32], [u8; 32]), DomainError>(
                    (session_of(old(self)@, id).peer_id, session_of(old(self)@, id).initiator_pubkey->0, e),
                ),
                None => fails_with(r, DomainErrorCode::InternalError),
            },
    {
        let sig = match signature {
            Some(sig) => sig,
            None => {
                return Err(DomainError::new(DomainErrorCode::InternalError, "PairingConfirm sem assinatura"));
            },
        };
        let (peer_id, initiator_pubkey) = match self.confirm_signer(id) {
            Ok(v) => v,
            Err(e) => {
                return Err(e);
            },
        };
        match verify_message_signature(&initiator_pubkey, body, &sig) {
            Ok(()) => {},
            Err(e) => {
                return Err(e);
            },
        }
        match self.finish_confirm(id) {
            Ok(s) => match s.peer_ephemeral_public {
                Some(e) => Ok((peer_id, initiator_pubkey, e)),
                None => Err(DomainError::new(DomainErrorCode::InternalError, "ephemeral do initiator ausente")),
            },
            Err(e) => Err(e),
        }
    }
}

/// The name shown for the peer of a session: the one it sent with its
/// request, else the one seen on the network, else its id.
pub fn remote_username(recorded: Option<String>, discovered: Option<String>, peer: PeerId) -> (s: String)
    ensures
        recorded matches Some(n) ==> s@ == n@,
        recorded is None ==> (discovered matches Some(n) ==> s@ == n@),
        recorded is None && discovered is None ==> s@ == uuid_hyphenated(peer.0),
{
    match recorded {
        Some(n) => n,
        None => match discovered {
            Some(n) => n,
            None => uuid_to_string(peer.0),
        },
    }
}

/// A fresh session fails at the third wrong PIN given before it expires:
/// the first two are mismatches that keep it waiting, the third fails it.
pub proof fn third_wrong_pin_fails(
    s0: PairingSession,
    s1: PairingSession,
    s2: PairingSession,
    s3: PairingSession,
    inputs: Seq<Seq<u8>>,
    now: Seq<u64>,
    r: Seq<Result<(), DomainError>>,
)
    requires
        s0.state == PairingState::AwaitingPin,
        s0.pin is Some,
        s0.failed_attempts == 0,
        inputs.len() == 3,
        now.len() == 3,
        r.len() == 3,
        forall|i: int| 0 <= i < 3 ==> !spells_pin(#[trigger] inputs[i], s0.pin->0) && now[i] < s0.expires_at_ms,
        verify_pin_post(s0, s1, inputs[0], now[0], r[0]),
        verify_pin_post(s1, s2, inputs[1], now[1], r[1]),
        verify_pin_post(s2, s3, inputs[2], now[2], r[2]),
    ensures
        fails_with(r[0], DomainErrorCode::PairingPinMismatch),
        fails_with(r[1], DomainErrorCode::PairingPinMismatch),
        fails_with(r[2], DomainErrorCode::PairingTooManyAttempts),
        s2.state == PairingState::AwaitingPin,
        s3.state == PairingState::Failed,
        s3.failed_attempts == MAX_PIN_ATTEMPTS,
{
    assert(!spells_pin(inputs[0], s0.pin->0) && now[0] < s0.expires_at_ms);
    assert(!spells_pin(inputs[1], s0.pin->0) && now[1] < s0.expires_at_ms);
    assert(!spells_pin(inputs[2], s0.pin->0) && now[2] < s0.expires_at_ms);
}

/// A failed session stays failed: every further PIN is refused with
/// `PairingTooManyAttempts` and changes nothing.
pub proof fn failed_session_stays_failed(s: PairingSession, s1: PairingSession, input: Seq<u8>, now_ms: u64, r: Result<(), DomainError>)
    requires
        s.state == PairingState::Failed,
        verify_pin_post(s, s1, input, now_ms, r),
    ensures
        s1 == s,
        fails_with(r, DomainErrorCode::PairingTooManyAttempts),
{
}

} // verus!
