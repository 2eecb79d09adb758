use cosmic_totp_client::envelope::SealError;
use cosmic_totp_client::errors::{ErrorMsg, VaultError};

#[test]
fn notices_are_numbered_in_turn() {
    let mut ids = 1u32;
    let first = ErrorMsg::new(&mut ids, "one".to_string());
    let second = ErrorMsg::new(&mut ids, "two".to_string());
    assert_eq!(first, ErrorMsg { id: 1, msg: "one".to_string() });
    assert_eq!(second, ErrorMsg { id: 2, msg: "two".to_string() });
    assert_eq!(ids, 3);
}

#[test]
fn notice_numbers_wrap_around() {
    let mut ids = u32::MAX;
    let last = ErrorMsg::new(&mut ids, "last".to_string());
    assert_eq!(last.id, u32::MAX);
    assert_eq!(ids, 0);
    let next = ErrorMsg::new(&mut ids, "next".to_string());
    assert_eq!(next.id, 0);
    assert_eq!(ids, 1);
}

#[test]
fn failures_have_their_messages() {
    assert_eq!(
        VaultError::Parse("expected value at line 1".to_string()).message(),
        "Couldn't deserialise secret store: expected value at line 1"
    );
    assert_eq!(
        VaultError::Serialize("key must be a string".to_string()).message(),
        "Failed to serialise secrets: key must be a string"
    );
    assert_eq!(VaultError::PlatformStore("no keyring".to_string()).message(), "no keyring");
    assert_eq!(
        VaultError::BackgroundTask("cancelled".to_string()).message(),
        "Couldn't join secret retrieving thread: cancelled"
    );
    assert_eq!(
        VaultError::DecryptAuth.message(),
        "Wrong passphrase, or the stored vault is damaged"
    );
    assert_eq!(
        VaultError::PassphraseMissing.message(),
        "Couldn't encrypt the vault: no passphrase was entered"
    );
    assert_eq!(
        VaultError::Seal(SealError::NoRandomness).message(),
        "Couldn't encrypt the vault: no random bytes"
    );
    assert_eq!(
        VaultError::Seal(SealError::KeyDerivation).message(),
        "Couldn't encrypt the vault: no key from this passphrase"
    );
    assert_eq!(
        VaultError::Seal(SealError::Cipher).message(),
        "Couldn't encrypt the vault: the vault is too large"
    );
}
