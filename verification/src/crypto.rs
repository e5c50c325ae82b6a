//! The cryptographic primitives pairing relies on: Ed25519 signatures
//! (`ed25519-dalek`), X25519 ephemeral keys (`x25519-dalek`) and random
//! PIN digits and identifiers (`rand`, `uuid`).

use vstd::prelude::*;
use ed25519_dalek::VerifyingKey;
use x25519_dalek::StaticSecret;
use crate::error::{DomainError, DomainErrorCode};

verus! {

#[verifier::external_type_specification]
#[verifier::external_body]
pub struct ExVerifyingKey(VerifyingKey);

/// Whether `ed25519_dalek::VerifyingKey::from_bytes` accepts these 32 bytes
/// (they decompress to a curve point).
pub uninterp spec fn ed25519_key_decodes(key: Seq<u8>) -> bool;

/// Whether `VerifyingKey::verify_strict`, for the key decoded from `key`,
/// accepts `sig` over `msg`.
pub uninterp spec fn ed25519_accepts_strict(key: Seq<u8>, msg: Seq<u8>, sig: Seq<u8>) -> bool;

/// A verifying key together with the bytes it was decoded from.
pub struct ParsedKey {
    bytes: [u8; 32],
    key: VerifyingKey,
}

impl ParsedKey {
    /// The bytes the key was decoded from.
    pub closed spec fn spec_bytes(&self) -> [u8; 32] {
        self.bytes
    }
}

/// Calls `ed25519_dalek::VerifyingKey::from_bytes`. Trusted to succeed
/// exactly when the bytes decode (named `ed25519_key_decodes`), and to
/// keep the bytes it decoded next to the key. The error's text is the
/// crate's own and is not stated.
#[verifier::external_body]
fn parse_verifying_key(bytes: &[u8; 32]) -> (r: Result<ParsedKey, String>)
    ensures
        r is Ok <==> ed25519_key_decodes(bytes@),
        r matches Ok(k) ==> k.spec_bytes() == *bytes,
{
    match VerifyingKey::from_bytes(bytes) {
        Ok(key) => Ok(ParsedKey { bytes: *bytes, key }),
        Err(e) => Err(e.to_string()),
    }
}

/// Calls `VerifyingKey::verify_strict` with the signature read by
/// `ed25519_dalek::Signature::from_bytes`. Trusted to succeed as named by
/// `ed25519_accepts_strict` for the key's bytes. The error's text is the
/// crate's own and is not stated.
#[verifier::external_body]
fn verify_strict(key: &ParsedKey, msg: &[u8], sig: &[u8; 64]) -> (r: Result<(), String>)
    ensures
        r is Ok <==> ed25519_accepts_strict(key.spec_bytes()@, msg@, sig@),
{
    key.key.verify_strict(msg, &ed25519_dalek::Signature::from_bytes(sig)).map_err(|e| e.to_string())
}

/// Whether `sig` is a valid strict Ed25519 signature of `msg` by `key`.
pub open spec fn signature_valid(key: Seq<u8>, msg: Seq<u8>, sig: Seq<u8>) -> bool {
    ed25519_key_decodes(key) && ed25519_accepts_strict(key, msg, sig)
}

/// Checks the signature of a pairing message body: a key that does not
/// decode, or a signature that does not verify, is an `InternalError`;
/// the first one's message starts with "chave pública inválida: ".
pub fn verify_message_signature(pubkey: &[u8; 32], body: &[u8], signature: &[u8; 64]) -> (r: Result<(), DomainError>)
    ensures
        r is Ok <==> signature_valid(pubkey@, body@, signature@),
        r is Err ==> r->Err_0.code == DomainErrorCode::InternalError,
        !ed25519_key_decodes(pubkey@) ==> r is Err && "chave pública inválida: "@.is_prefix_of(r->Err_0.message@),
{
    match parse_verifying_key(pubkey) {
        Err(e) => {
            let message = "chave pública inválida: ".to_owned().concat(e.as_str());
            Err(DomainError { code: DomainErrorCode::InternalError, message })
        },
        Ok(key) => match verify_strict(&key, body, signature) {
            Ok(()) => Ok(()),
            Err(e) => Err(DomainError { code: DomainErrorCode::InternalError, message: e }),
        },
    }
}

/// The X25519 public key of a secret key, as `x25519_dalek::PublicKey::from`
/// derives it.
pub uninterp spec fn x25519_public_of(secret: Seq<u8>) -> Seq<u8>;

/// Calls `x25519_dalek::StaticSecret::random_from_rng` with the operating
/// system's generator and hands out the secret's bytes. The secret is
/// random: nothing is stated of it.
#[verifier::external_body]
pub(crate) fn new_ephemeral_secret() -> [u8; 32] {
    StaticSecret::random_from_rng(rand::rngs::OsRng).to_bytes()
}

/// Calls `x25519_dalek::PublicKey::from` on the secret read from `secret`
/// by `StaticSecret::from`. Trusted to give the public key named by
/// `x25519_public_of`, which depends on the secret alone.
#[verifier::external_body]
pub(crate) fn ephemeral_public(secret: &[u8; 32]) -> (p: [u8; 32])
    ensures
        p@ == x25519_public_of(secret@),
{
    x25519_dalek::PublicKey::from(&StaticSecret::from(*secret)).to_bytes()
}

/// Calls `rand::Rng::gen_range(0..10)` on the thread-local generator,
/// which returns a value of the range.
#[verifier::external_body]
fn random_digit() -> (d: u8)
    ensures
        d < 10,
{
    rand::Rng::gen_range(&mut rand::thread_rng(), 0u8..10u8)
}

/// Six random decimal digits.
pub fn random_pin() -> (pin: [u8; 6])
    ensures
        forall|i: int| 0 <= i < 6 ==> #[trigger] pin@[i] < 10,
{
    let mut pin: [u8; 6] = [0u8; 6];
    let mut i: usize = 0;
    while i < 6
        invariant
            i <= 6,
            forall|k: int| 0 <= k < 6 ==> #[trigger] pin@[k] < 10,
        decreases 6 - i,
    {
        let d = random_digit();
        pin[i] = d;
        i = i + 1;
    }
    pin
}

/// Calls `uuid::Uuid::new_v4` and hands out its value. The identifier is
/// random: nothing is stated of it.
#[verifier::external_body]
pub(crate) fn new_uuid() -> u128 {
    uuid::Uuid::new_v4().as_u128()
}

} // verus!
