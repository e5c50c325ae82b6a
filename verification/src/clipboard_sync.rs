//! Clipboard sync with the KVM peer: which local changes are sent, which
//! remote texts are applied, and the content hashes that keep a text from
//! bouncing back and forth.

use vstd::prelude::*;
use crate::error::{fails_with, DomainError, DomainErrorCode};
use crate::events::DomainEvent;
use crate::ids::PeerId;

verus! {

/// Largest clipboard text exchanged, in bytes (5 MiB).
pub const MAX_CLIPBOARD_TEXT_BYTES: usize = 5_242_880;

/// An opaque handle on a running clipboard watcher.
#[derive(Debug)]
pub struct ClipboardWatcherHandle {
    pub id: u64,
}

/// How often the local clipboard is polled, in milliseconds.
pub const POLL_MS: u64 = 200;

/// The clipboard-sync state of this device. Texts are known by their
/// content hash.
#[derive(Clone, Copy, Debug)]
pub struct ClipboardSync {
    pub auto_sync: bool,
    pub active_peer: Option<PeerId>,
    /// Whether the data stream to the peer is open.
    pub has_channel: bool,
    pub last_sent: Option<[u8; 32]>,
    pub last_applied: Option<[u8; 32]>,
    /// Set while a remote text is being written to the local clipboard,
    /// so that the write is not taken for a local change.
    pub suppress_local: bool,
}

/// Whether a local clipboard change (its hash and length in bytes) is sent
/// to the peer: sync is on, no remote text is being applied, a peer is
/// active, the text is not too large, it is neither the text last applied
/// from the peer nor the one last sent, and the data stream is open.
pub open spec fn local_change_sent(s: ClipboardSync, hash: [u8; 32], len: usize) -> bool {
    &&& s.auto_sync
    &&& !s.suppress_local
    &&& s.active_peer is Some
    &&& len <= MAX_CLIPBOARD_TEXT_BYTES
    &&& s.last_applied != Some(hash)
    &&& s.last_sent != Some(hash)
    &&& s.has_channel
}

/// Whether a text from the peer is written to the local clipboard: it did
/// not originate here, it is not the text last applied, and it is not too
/// large (that one is refused).
pub open spec fn remote_text_applied(s: ClipboardSync, origin: PeerId, local: PeerId, hash: [u8; 32], len: usize) -> bool {
    origin != local && s.last_applied != Some(hash) && len <= MAX_CLIPBOARD_TEXT_BYTES
}

fn same_hash(a: Option<[u8; 32]>, b: &[u8; 32]) -> (r: bool)
    ensures
        r == (a == Some(*b)),
{
    match a {
        None => false,
        Some(h) => crate::transport_core::bytes32_eq(&h, b),
    }
}

impl ClipboardSync {
    /// Nothing synced yet; `auto_sync` as configured.
    pub fn new(auto_sync: bool) -> (s: Self)
        ensures
            s == (ClipboardSync {
                auto_sync,
                active_peer: None,
                has_channel: false,
                last_sent: None,
                last_applied: None,
                suppress_local: false,
            }),
    {
        ClipboardSync { auto_sync, active_peer: None, has_channel: false, last_sent: None, last_applied: None, suppress_local: false }
    }

    /// Turns sync on with `peer`; refused with `TransportConnectionFailed`
    /// when the peer is not connected.
    pub fn enable_for_peer(&mut self, peer: PeerId, connected: bool) -> (r: Result<(), DomainError>)
        ensures
            !connected ==> fails_with(r, DomainErrorCode::TransportConnectionFailed) && *final(self) == *old(self),
            connected ==> r is Ok && *final(self) == (ClipboardSync { active_peer: Some(peer), ..*old(self) }),
    {
        if !connected {
            return Err(DomainError::new(DomainErrorCode::TransportConnectionFailed, "peer não conectado via QUIC"));
        }
        self.active_peer = Some(peer);
        Ok(())
    }

    /// The data stream to the peer opened.
    pub fn channel_opened(&mut self)
        ensures
            *final(self) == (ClipboardSync { has_channel: true, ..*old(self) }),
    {
        self.has_channel = true;
    }

    /// The connection to `peer` was lost: if it was the active peer, sync
    /// stops and the stream is dropped.
    pub fn on_connection_lost(&mut self, peer: PeerId)
        ensures
            old(self).active_peer == Some(peer) ==> *final(self) == (ClipboardSync {
                active_peer: None,
                has_channel: false,
                ..*old(self)
            }),
            old(self).active_peer != Some(peer) ==> *final(self) == *old(self),
    {
        if self.active_peer == Some(peer) {
            self.active_peer = None;
            self.has_channel = false;
        }
    }

    /// Whether a local change is sent (see [`local_change_sent`]).
    pub fn should_send_local(&self, hash: &[u8; 32], len: usize) -> (b: bool)
        ensures
            b == local_change_sent(*self, *hash, len),
    {
        self.auto_sync && !self.suppress_local && self.active_peer.is_some() && len <= MAX_CLIPBOARD_TEXT_BYTES
            && !same_hash(self.last_applied, hash) && !same_hash(self.last_sent, hash) && self.has_channel
    }

    /// The local text went out: it is remembered and announced.
    pub fn local_sent(&mut self, hash: [u8; 32], len: usize) -> (ev: DomainEvent)
        ensures
            *final(self) == (ClipboardSync { last_sent: Some(hash), ..*old(self) }),
            ev == (DomainEvent::ClipboardChanged { hash, byte_len: len }),
    {
        self.last_sent = Some(hash);
        DomainEvent::ClipboardChanged { hash, byte_len: len }
    }

    /// A text from the peer arrived. Its own echo, or the text last applied,
    /// is skipped (`Ok(false)`); a text over the limit is refused with
    /// `ClipboardPayloadTooLarge`. Otherwise local changes are suppressed
    /// while it is written (`Ok(true)`).
    pub fn begin_remote_apply(&mut self, origin: PeerId, local: PeerId, hash: &[u8; 32], len: usize) -> (r: Result<bool, DomainError>)
        ensures
            (origin == local || old(self).last_applied == Some(*hash)) ==> r == Ok::<bool, DomainError>(false)
                && *final(self) == *old(self),
            !(origin == local || old(self).last_applied == Some(*hash)) && len > MAX_CLIPBOARD_TEXT_BYTES ==> fails_with(
                r,
                DomainErrorCode::ClipboardPayloadTooLarge,
            ) && *final(self) == *old(self),
            remote_text_applied(*old(self), origin, local, *hash, len) ==> r == Ok::<bool, DomainError>(true)
                && *final(self) == (ClipboardSync { suppress_local: true, ..*old(self) }),
    {
        if origin == local {
            return Ok(false);
        }
        if same_hash(self.last_applied, hash) {
            return Ok(false);
        }
        if len > MAX_CLIPBOARD_TEXT_BYTES {
            return Err(DomainError::new(DomainErrorCode::ClipboardPayloadTooLarge, "texto de clipboard excede 5MB"));
        }
        self.suppress_local = true;
        Ok(true)
    }

    /// The remote text was written: local changes flow again, the text is
    /// remembered as applied and announced.
    pub fn remote_applied(&mut self, from: PeerId, hash: [u8; 32]) -> (ev: DomainEvent)
        ensures
            *final(self) == (ClipboardSync { suppress_local: false, last_applied: Some(hash), ..*old(self) }),
            ev == (DomainEvent::ClipboardReceived { from_peer: from, hash }),
    {
        self.suppress_local = false;
        self.last_applied = Some(hash);
        DomainEvent::ClipboardReceived { from_peer: from, hash }
    }
}

/// A text applied from the peer is not sent back when the local
/// clipboard then reports it as a change.
pub proof fn applied_text_is_not_echoed(s: ClipboardSync, hash: [u8; 32], len: usize)
    ensures
        !local_change_sent(ClipboardSync { suppress_local: false, last_applied: Some(hash), ..s }, hash, len),
{
}

/// A text just sent is not sent again until another text was sent.
pub proof fn sent_text_is_not_resent(s: ClipboardSync, hash: [u8; 32], len: usize)
    ensures
        !local_change_sent(ClipboardSync { last_sent: Some(hash), ..s }, hash, len),
{
}

/// A text from the peer is applied once: once applied, the same text
/// (by its hash) arriving again is not written a second time.
pub proof fn applied_text_is_not_reapplied(s: ClipboardSync, origin: PeerId, local: PeerId, hash: [u8; 32], len: usize)
    ensures
        !remote_text_applied(ClipboardSync { suppress_local: false, last_applied: Some(hash), ..s }, origin, local, hash, len),
{
}

/// A text that originated on this device is never applied back to it.
pub proof fn own_text_is_not_applied(s: ClipboardSync, local: PeerId, hash: [u8; 32], len: usize)
    ensures
        !remote_text_applied(s, local, local, hash, len),
{
}

} // verus!
