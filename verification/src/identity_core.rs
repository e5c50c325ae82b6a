//! This device's identity: its id, its name as shown to peers, and its
//! Ed25519 key pair.

use vstd::prelude::*;
use vstd::string::StringSliceAdditionalSpecFns;
use ed25519_dalek::SigningKey;
use crate::crypto::new_uuid;
use crate::error::{fails_with, DomainError, DomainErrorCode};
use crate::events::DomainEvent;
use crate::discovery_core::{announce_info, hex_lower, AnnounceInfo, WINX_KVM_PORT};
use crate::ids::DeviceId;

verus! {

/// Longest username, in UTF-8 bytes after trimming.
pub const MAX_USERNAME_BYTES: usize = 64;

/// This device as the identity store keeps it.
#[derive(Clone, Debug)]
pub struct Device {
    pub id: DeviceId,
    pub username: String,
    pub public_key: [u8; 32],
}

/// Whether `c` has the Unicode `White_Space` property.
pub open spec fn is_white_space(c: char) -> bool {
    let u = c as u32;
    (0x9 <= u <= 0xD) || u == 0x20 || u == 0x85 || u == 0xA0 || u == 0x1680 || (0x2000 <= u <= 0x200A) || u == 0x2028
        || u == 0x2029 || u == 0x202F || u == 0x205F || u == 0x3000
}

/// `s` without its leading white space.
pub open spec fn trim_start_white(s: Seq<char>) -> Seq<char>
    decreases s.len(),
{
    if s.len() > 0 && is_white_space(s[0]) {
        trim_start_white(s.drop_first())
    } else {
        s
    }
}

/// `s` without its trailing white space.
pub open spec fn trim_end_white(s: Seq<char>) -> Seq<char>
    decreases s.len(),
{
    if s.len() > 0 && is_white_space(s.last()) {
        trim_end_white(s.drop_last())
    } else {
        s
    }
}

/// `s` without leading and trailing white space.
pub open spec fn trim_white(s: Seq<char>) -> Seq<char> {
    trim_end_white(trim_start_white(s))
}

/// Calls `str::trim`, which std documents as removing the leading and
/// trailing characters with the Unicode `White_Space` property.
#[verifier::external_body]
fn str_trim(s: &str) -> (r: &str)
    ensures
        r@ == trim_white(s@),
{
    s.trim()
}

/// Whether a username is accepted: once trimmed, it has 1 to
/// `MAX_USERNAME_BYTES` bytes in UTF-8.
pub open spec fn username_valid(s: Seq<char>) -> bool {
    trim_white(s).len() > 0 && vstd::utf8::encode_utf8(trim_white(s)).len() <= MAX_USERNAME_BYTES
}

/// Trims a username and checks its length; a username that is empty after
/// trimming, or longer than `MAX_USERNAME_BYTES` bytes, is refused with
/// `IdentityUsernameInvalid`.
pub fn validate_username(username: &str) -> (r: Result<String, DomainError>)
    ensures
        username_valid(username@) ==> (r matches Ok(v) && v@ == trim_white(username@)),
        !username_valid(username@) ==> fails_with(r, DomainErrorCode::IdentityUsernameInvalid),
{
    let trimmed = str_trim(username);
    if trimmed.is_empty() || trimmed.as_bytes().len() > MAX_USERNAME_BYTES {
        return Err(DomainError::new(DomainErrorCode::IdentityUsernameInvalid, "username must be 1..=64 characters after trim"));
    }
    Ok(trimmed.to_owned())
}

/// Sets a validated username; `false` (and no change) when it already is
/// the device's name.
pub fn apply_username(device: &mut Device, validated: String) -> (changed: bool)
    ensures
        changed == (old(device).username@ != validated@),
        final(device).id == old(device).id,
        final(device).public_key == old(device).public_key,
        final(device).username@ == validated@,
{
    if device.username == validated {
        return false;
    }
    device.username = validated;
    true
}

/// What the stored identity means at start-up: a stored device whose
/// signing key is still there (`key_present`) is used as it is; without a
/// device, or without its key, a new identity is made.
pub fn keep_existing(loaded: Option<Device>, key_present: bool) -> (r: Option<Device>)
    ensures
        r == (if key_present { loaded } else { None }),
{
    if key_present {
        loaded
    } else {
        None
    }
}

/// The Ed25519 public key of a secret key, as
/// `ed25519_dalek::SigningKey::verifying_key` derives it.
pub uninterp spec fn ed25519_public_of(secret: Seq<u8>) -> Seq<u8>;

/// Calls `ed25519_dalek::SigningKey::generate` with the operating system's
/// generator and hands out the secret key's bytes. The key is random:
/// nothing is stated of it.
#[verifier::external_body]
fn generate_secret_key() -> [u8; 32] {
    SigningKey::generate(&mut rand::rngs::OsRng).to_bytes()
}

/// Calls `SigningKey::verifying_key` on the key read from `secret` by
/// `SigningKey::from_bytes`. Trusted to give the public key named by
/// `ed25519_public_of`, which depends on the secret alone.
#[verifier::external_body]
fn public_key_of(secret: &[u8; 32]) -> (p: [u8; 32])
    ensures
        p@ == ed25519_public_of(secret@),
{
    SigningKey::from_bytes(secret).verifying_key().to_bytes()
}

/// A new identity named `username`: a random device id and a fresh
/// Ed25519 key pair. The secret key comes back beside the device, whose
/// public key is the one derived from it.
pub fn new_identity(username: &str) -> (r: (Device, [u8; 32]))
    ensures
        r.0.username@ == username@,
        r.0.public_key@ == ed25519_public_of(r.1@),
{
    let secret = generate_secret_key();
    let public_key = public_key_of(&secret);
    let device = Device { id: DeviceId(new_uuid()), username: username.to_owned(), public_key };
    (device, secret)
}

/// The announcement of a new identity.
pub fn device_created(device: &Device, fingerprint: String) -> (ev: DomainEvent)
    ensures
        ev == (DomainEvent::DeviceCreated { device_id: device.id, fingerprint }),
{
    DomainEvent::DeviceCreated { device_id: device.id, fingerprint }
}

/// Trimming twice is trimming once: a validated name is valid again and
/// unchanged.
pub proof fn trim_white_idempotent(s: Seq<char>)
    ensures
        trim_white(trim_white(s)) == trim_white(s),
{
    let a = trim_start_white(s);
    lemma_trim_start_fixed(s);
    lemma_trim_end_keeps_start(a);
    lemma_trim_end_fixed(a);
}

proof fn lemma_trim_start_fixed(s: Seq<char>)
    ensures
        trim_start_white(s).len() == 0 || !is_white_space(trim_start_white(s)[0]),
    decreases s.len(),
{
    if s.len() > 0 && is_white_space(s[0]) {
        lemma_trim_start_fixed(s.drop_first());
    }
}

proof fn lemma_trim_end_keeps_start(s: Seq<char>)
    requires
        s.len() == 0 || !is_white_space(s[0]),
    ensures
        trim_end_white(s).len() == 0 || (trim_end_white(s)[0] == s[0]),
        trim_start_white(trim_end_white(s)) == trim_end_white(s),
    decreases s.len(),
{
    if s.len() > 0 && is_white_space(s.last()) {
        let d = s.drop_last();
        if d.len() > 0 {
            assert(d[0] == s[0]);
        }
        lemma_trim_end_keeps_start(d);
    }
}

proof fn lemma_trim_end_fixed(s: Seq<char>)
    ensures
        trim_end_white(trim_end_white(s)) == trim_end_white(s),
    decreases s.len(),
{
    if s.len() > 0 && is_white_space(s.last()) {
        lemma_trim_end_fixed(s.drop_last());
    }
}

/// Changing this device's username.
pub struct UpdateDeviceProfile;

impl UpdateDeviceProfile {
    /// Validates `username` (see [`validate_username`]) and sets it on the
    /// device. `Ok(true)` when the name changed (it is then saved and
    /// announced again), `Ok(false)` when it already was the device's name;
    /// an invalid name leaves the device as it was.
    pub fn update_username(device: &mut Device, username: &str) -> (r: Result<bool, DomainError>)
        ensures
            !username_valid(username@) ==> fails_with(r, DomainErrorCode::IdentityUsernameInvalid)
                && final(device).username@ == old(device).username@,
            username_valid(username@) ==> r == Ok::<bool, DomainError>(old(device).username@ != trim_white(username@))
                && final(device).username@ == trim_white(username@),
            final(device).id == old(device).id,
            final(device).public_key == old(device).public_key,
    {
        match validate_username(username) {
            Err(e) => Err(e),
            Ok(v) => Ok(apply_username(device, v)),
        }
    }

    /// What is announced on the network after a rename: the device's id,
    /// its (new) name, its fingerprint, its public key in hexadecimal and
    /// the KVM port.
    pub fn rename_announce(device: &Device, fingerprint: String) -> (a: AnnounceInfo)
        ensures
            a.peer_id.0 == device.id.0,
            a.username@ == device.username@,
            a.fingerprint@ == fingerprint@,
            a.pubkey_hex@ == hex_lower(device.public_key@),
            a.port == WINX_KVM_PORT,
    {
        announce_info(device.id.as_peer(), device.username.clone(), fingerprint, &device.public_key)
    }
}

} // verus!
