use winx_application::error::DomainErrorCode;
use winx_application::identity_core::{
    apply_username, keep_existing, new_identity, validate_username, Device, UpdateDeviceProfile,
};
use winx_application::ids::DeviceId;

#[test]
fn rejects_empty_username() {
    assert!(validate_username("   ").is_err());
}

#[test]
fn trims_and_accepts_valid_username() {
    let ok = validate_username("  My PC  ").unwrap();
    assert_eq!(ok, "My PC");
}

#[test]
fn rejects_too_long_username() {
    let long = "a".repeat(65);
    assert!(validate_username(&long).is_err());
}

#[test]
fn accepts_exactly_64_bytes() {
    let name = "b".repeat(64);
    assert_eq!(validate_username(&name).unwrap(), name);
}

#[test]
fn length_counts_utf8_bytes() {
    // 33 two-byte characters are 66 bytes.
    let name = "é".repeat(33);
    let err = validate_username(&name).unwrap_err();
    assert_eq!(err.code, DomainErrorCode::IdentityUsernameInvalid);
    let name = "é".repeat(32);
    assert!(validate_username(&name).is_ok());
}

#[test]
fn trims_unicode_white_space() {
    assert_eq!(validate_username("\u{3000}\tDesk\u{a0}\n").unwrap(), "Desk");
}

fn device(name: &str) -> Device {
    Device { id: DeviceId(7), username: name.to_string(), public_key: [3u8; 32] }
}

#[test]
fn apply_username_reports_change() {
    let mut d = device("Old");
    assert!(!apply_username(&mut d, "Old".to_string()));
    assert!(apply_username(&mut d, "New".to_string()));
    assert_eq!(d.username, "New");
    assert_eq!(d.id, DeviceId(7));
}

#[test]
fn update_username_validates_and_applies() {
    let mut d = device("Laptop");
    assert_eq!(UpdateDeviceProfile::update_username(&mut d, "  Laptop ").unwrap(), false);
    assert_eq!(UpdateDeviceProfile::update_username(&mut d, " Desk ").unwrap(), true);
    assert_eq!(d.username, "Desk");
    let err = UpdateDeviceProfile::update_username(&mut d, " ").unwrap_err();
    assert_eq!(err.code, DomainErrorCode::IdentityUsernameInvalid);
    assert_eq!(d.username, "Desk");
}

#[test]
fn existing_identity_needs_its_key() {
    assert!(keep_existing(Some(device("A")), true).is_some());
    assert!(keep_existing(Some(device("A")), false).is_none());
    assert!(keep_existing(None, true).is_none());
}

#[test]
fn new_identity_has_fresh_keys() {
    let (a, secret_a) = new_identity("Me");
    let (b, _) = new_identity("Me");
    assert_eq!(a.username, "Me");
    assert_ne!(a.id, b.id);
    assert_ne!(a.public_key, b.public_key);
    let key = ed25519_dalek::SigningKey::from_bytes(&secret_a);
    assert_eq!(key.verifying_key().to_bytes(), a.public_key);
}

#[test]
fn rename_is_announced_with_the_new_name() {
    let mut d = Device { id: DeviceId(0xabc), username: "Laptop".to_string(), public_key: [0x0f; 32] };
    assert!(UpdateDeviceProfile::update_username(&mut d, "  Desk ").unwrap());
    let info = UpdateDeviceProfile::rename_announce(&d, "AA:BB".to_string());
    assert_eq!(info.peer_id.0, 0xabc);
    assert_eq!(info.username, "Desk");
    assert_eq!(info.fingerprint, "AA:BB");
    assert_eq!(info.pubkey_hex, "0f".repeat(32));
    assert_eq!(info.port, winx_application::discovery_core::WINX_KVM_PORT);
}
