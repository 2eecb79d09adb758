use cosmic_totp_client::envelope::{
    decrypt, encrypt, seal_with, DecryptAuthError, HEADER_LEN, NONCE_LEN, SALT_LEN, TAG_LEN,
};

#[test]
fn decrypt_gives_back_what_encrypt_took() {
    let plaintext = b"[{\"id\":0,\"label\":\"a\"}]".to_vec();
    let blob = encrypt("correct horse", &plaintext).unwrap();
    assert_eq!(blob.len(), HEADER_LEN + plaintext.len() + TAG_LEN);
    assert_eq!(decrypt("correct horse", &blob), Ok(plaintext));
}

#[test]
fn empty_plaintext_round_trips() {
    let blob = encrypt("", b"").unwrap();
    assert_eq!(blob.len(), HEADER_LEN + TAG_LEN);
    assert_eq!(decrypt("", &blob), Ok(Vec::new()));
}

#[test]
fn wrong_passphrase_is_an_authentication_error() {
    let blob = encrypt("right", b"secret data").unwrap();
    assert_eq!(decrypt("wrong", &blob), Err(DecryptAuthError));
    assert_eq!(decrypt("right ", &blob), Err(DecryptAuthError));
}

#[test]
fn damaged_blob_is_an_authentication_error() {
    let blob = encrypt("pass", b"secret data").unwrap();
    let mut flipped = blob.clone();
    let last = flipped.len() - 1;
    flipped[last] ^= 1;
    assert_eq!(decrypt("pass", &flipped), Err(DecryptAuthError));
    let mut nonce_changed = blob.clone();
    nonce_changed[SALT_LEN] ^= 0x80;
    assert_eq!(decrypt("pass", &nonce_changed), Err(DecryptAuthError));
}

#[test]
fn short_blob_is_an_authentication_error() {
    assert_eq!(decrypt("pass", b""), Err(DecryptAuthError));
    assert_eq!(decrypt("pass", &[0u8; 43]), Err(DecryptAuthError));
    let blob = encrypt("pass", b"x").unwrap();
    assert_eq!(decrypt("pass", &blob[..blob.len() - 1]), Err(DecryptAuthError));
}

#[test]
fn blob_starts_with_salt_and_nonce() {
    let salt = [7u8; SALT_LEN];
    let nonce = [9u8; NONCE_LEN];
    let plaintext = b"plaintext bytes".to_vec();
    let blob = seal_with("pass", &salt, &nonce, &plaintext).unwrap();
    assert_eq!(&blob[..SALT_LEN], &salt[..]);
    assert_eq!(&blob[SALT_LEN..HEADER_LEN], &nonce[..]);
    assert_eq!(blob.len(), HEADER_LEN + plaintext.len() + TAG_LEN);
    assert_ne!(&blob[HEADER_LEN..HEADER_LEN + plaintext.len()], &plaintext[..]);
    assert_eq!(decrypt("pass", &blob), Ok(plaintext));
}

#[test]
fn sealing_is_fixed_by_salt_and_nonce() {
    let salt = [1u8; SALT_LEN];
    let nonce = [2u8; NONCE_LEN];
    let first = seal_with("pass", &salt, &nonce, b"same").unwrap();
    let second = seal_with("pass", &salt, &nonce, b"same").unwrap();
    assert_eq!(first, second);
    let other = seal_with("pass", &[3u8; SALT_LEN], &nonce, b"same").unwrap();
    assert_ne!(first[HEADER_LEN..], other[HEADER_LEN..]);
}

#[test]
fn encrypt_draws_a_new_salt_each_time() {
    let first = encrypt("pass", b"same").unwrap();
    let second = encrypt("pass", b"same").unwrap();
    assert_ne!(first[..HEADER_LEN], second[..HEADER_LEN]);
    assert_ne!(first, second);
}

#[test]
fn passphrase_may_hold_any_text() {
    let passphrase = "pässwörd 密码 \u{1F511}";
    let blob = encrypt(passphrase, b"data").unwrap();
    assert_eq!(decrypt(passphrase, &blob), Ok(b"data".to_vec()));
}
