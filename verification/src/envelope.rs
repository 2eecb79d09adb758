//! The passphrase envelope: a vault's serialized bytes, encrypted under a
//! key derived from a passphrase, as one self-contained blob.
//!
//! A blob is the salt of the key derivation, the nonce of the cipher and
//! the ciphertext with its authentication tag, in this order.

use vstd::prelude::*;
use vstd::slice::slice_subrange;
use chacha20poly1305::aead::{Aead, KeyInit};
use crate::views::bytes_view;

verus! {

/// Bytes of salt at the head of a blob.
pub const SALT_LEN: usize = 16;

/// Bytes of nonce after the salt.
pub const NONCE_LEN: usize = 12;

/// Bytes of the derived key.
pub const KEY_LEN: usize = 32;

/// Bytes that the cipher appends to a plaintext.
pub const TAG_LEN: usize = 16;

/// Bytes of a blob before its ciphertext.
pub const HEADER_LEN: usize = 28;

/// The passphrase is wrong or the blob is damaged. The two cannot be told
/// apart.
#[derive(Clone, Copy, Debug, PartialEq, Eq, Structural)]
pub struct DecryptAuthError;

/// Why a plaintext could not be sealed.
#[derive(Clone, Copy, Debug, PartialEq, Eq, Structural)]
pub enum SealError {
    /// The system gave no random bytes.
    NoRandomness,
    /// No key could be derived from the passphrase.
    KeyDerivation,
    /// The cipher refused the plaintext.
    Cipher,
}

/// The key of `len` bytes that Argon2id with the default parameters of the
/// `argon2` crate derives from a passphrase and a salt, or `None` where it
/// refuses them.
pub uninterp spec fn argon2id_key(passphrase: Seq<char>, salt: Seq<u8>, len: nat) -> Option<Seq<u8>>;

/// The ciphertext, tag included, that ChaCha20-Poly1305 makes of a plaintext
/// under a key and a nonce without associated data, or `None` where it
/// refuses the plaintext.
pub uninterp spec fn chacha_sealed(key: Seq<u8>, nonce: Seq<u8>, plaintext: Seq<u8>) -> Option<Seq<u8>>;

/// The plaintext that ChaCha20-Poly1305 recovers from a ciphertext under a
/// key and a nonce without associated data, or `None` where the tag does
/// not match.
pub uninterp spec fn chacha_opened(key: Seq<u8>, nonce: Seq<u8>, ciphertext: Seq<u8>) -> Option<Seq<u8>>;

/// The blob made of its three parts.
pub open spec fn framed(salt: Seq<u8>, nonce: Seq<u8>, ciphertext: Seq<u8>) -> Seq<u8> {
    salt + nonce + ciphertext
}

/// The blob that sealing yields for a given salt and nonce.
pub open spec fn sealed_envelope(
    passphrase: Seq<char>,
    salt: Seq<u8>,
    nonce: Seq<u8>,
    plaintext: Seq<u8>,
) -> Result<Seq<u8>, SealError> {
    match argon2id_key(passphrase, salt, KEY_LEN as nat) {
        None => Err(SealError::KeyDerivation),
        Some(key) => match chacha_sealed(key, nonce, plaintext) {
            None => Err(SealError::Cipher),
            Some(ciphertext) => Ok(framed(salt, nonce, ciphertext)),
        },
    }
}

/// What opening a blob under a passphrase yields. A blob too short to hold
/// a salt, a nonce and a tag is damaged.
pub open spec fn opened_envelope(passphrase: Seq<char>, blob: Seq<u8>) -> Result<Seq<u8>, DecryptAuthError> {
    if blob.len() < HEADER_LEN + TAG_LEN {
        Err(DecryptAuthError)
    } else {
        let salt = blob.subrange(0, SALT_LEN as int);
        let nonce = blob.subrange(SALT_LEN as int, HEADER_LEN as int);
        let ciphertext = blob.subrange(HEADER_LEN as int, blob.len() as int);
        match argon2id_key(passphrase, salt, KEY_LEN as nat) {
            None => Err(DecryptAuthError),
            Some(key) => match chacha_opened(key, nonce, ciphertext) {
                None => Err(DecryptAuthError),
                Some(plaintext) => Ok(plaintext),
            },
        }
    }
}

pub open spec fn sealed_view(r: Result<Vec<u8>, SealError>) -> Result<Seq<u8>, SealError> {
    match r {
        Ok(blob) => Ok(blob@),
        Err(e) => Err(e),
    }
}

pub open spec fn opened_view(r: Result<Vec<u8>, DecryptAuthError>) -> Result<Seq<u8>, DecryptAuthError> {
    match r {
        Ok(plaintext) => Ok(plaintext@),
        Err(e) => Err(e),
    }
}

/// Calls `getrandom::getrandom` on a buffer of `len` bytes. Trusted: that
/// the bytes handed back are `len` in number. Nothing is said of their
/// values, which differ from call to call.
#[verifier::external_body]
pub(crate) fn random_bytes(len: usize) -> (bytes: Option<Vec<u8>>)
    ensures
        bytes matches Some(b) ==> b@.len() == len,
{
    let mut bytes = vec![0u8; len];
    match getrandom::getrandom(&mut bytes) {
        Ok(()) => Some(bytes),
        Err(_) => None,
    }
}

/// Calls `argon2::Argon2::hash_password_into` of `Argon2::default()` on an
/// output buffer of `len` bytes. Trusted: that the result is the named key
/// of the passphrase, the salt and the length, and that a key handed back
/// has `len` bytes.
#[verifier::external_body]
fn derive_key(passphrase: &str, salt: &[u8], len: usize) -> (key: Option<Vec<u8>>)
    ensures
        bytes_view(key) == argon2id_key(passphrase@, salt@, len as nat),
        key matches Some(k) ==> k@.len() == len,
{
    let mut key = vec![0u8; len];
    match argon2::Argon2::default().hash_password_into(passphrase.as_bytes(), salt, &mut key) {
        Ok(()) => Some(key),
        Err(_) => None,
    }
}

/// Calls `encrypt` of `chacha20poly1305::ChaCha20Poly1305`. Trusted: that
/// the result is the named ciphertext, that it is longer than the plaintext
/// by the tag, and that the cipher opens what it sealed: under the same key
/// and nonce the ciphertext gives the plaintext back. The `requires` leaves
/// out the key and nonce lengths on which the outside code panics.
#[verifier::external_body]
fn aead_seal(key: &[u8], nonce: &[u8], plaintext: &[u8]) -> (sealed: Option<Vec<u8>>)
    requires
        key@.len() == KEY_LEN,
        nonce@.len() == NONCE_LEN,
    ensures
        bytes_view(sealed) == chacha_sealed(key@, nonce@, plaintext@),
        sealed matches Some(c) ==> c@.len() == plaintext@.len() + TAG_LEN,
        sealed matches Some(c) ==> chacha_opened(key@, nonce@, c@) == Some(plaintext@),
{
    let cipher = chacha20poly1305::ChaCha20Poly1305::new_from_slice(key).ok()?;
    cipher.encrypt(chacha20poly1305::Nonce::from_slice(nonce), plaintext).ok()
}

/// Calls `decrypt` of `chacha20poly1305::ChaCha20Poly1305`. Trusted: that
/// the result is the named plaintext, `None` where the tag does not match.
/// The `requires` leaves out the key and nonce lengths on which the outside
/// code panics.
#[verifier::external_body]
fn aead_open(key: &[u8], nonce: &[u8], ciphertext: &[u8]) -> (opened: Option<Vec<u8>>)
    requires
        key@.len() == KEY_LEN,
        nonce@.len() == NONCE_LEN,
    ensures
        bytes_view(opened) == chacha_opened(key@, nonce@, ciphertext@),
{
    let cipher = chacha20poly1305::ChaCha20Poly1305::new_from_slice(key).ok()?;
    cipher.decrypt(chacha20poly1305::Nonce::from_slice(nonce), ciphertext).ok()
}

fn append(blob: &mut Vec<u8>, part: &[u8])
    ensures
        final(blob)@ == old(blob)@ + part@,
{
    blob.extend_from_slice(part);
    assert(blob@ =~= old(blob)@ + part@);
}

/// Seals a plaintext under a passphrase with a given salt and nonce. The
/// blob that comes out opens to the plaintext under the same passphrase.
pub fn seal_with(passphrase: &str, salt: &[u8], nonce: &[u8], plaintext: &[u8]) -> (r: Result<
    Vec<u8>,
    SealError,
>)
    requires
        salt@.len() == SALT_LEN,
        nonce@.len() == NONCE_LEN,
    ensures
        sealed_view(r) == sealed_envelope(passphrase@, salt@, nonce@, plaintext@),
        r matches Ok(blob) ==> {
            &&& blob@.len() == HEADER_LEN + plaintext@.len() + TAG_LEN
            &&& opened_envelope(passphrase@, blob@) == Ok::<Seq<u8>, DecryptAuthError>(plaintext@)
        },
{
    let key = match derive_key(passphrase, salt, KEY_LEN) {
        Some(key) => key,
        None => {
            return Err(SealError::KeyDerivation);
        },
    };
    let ciphertext = match aead_seal(key.as_slice(), nonce, plaintext) {
        Some(ciphertext) => ciphertext,
        None => {
            return Err(SealError::Cipher);
        },
    };
    let mut blob: Vec<u8> = Vec::new();
    append(&mut blob, salt);
    append(&mut blob, nonce);
    append(&mut blob, ciphertext.as_slice());
    proof {
        assert(blob@.subrange(0, SALT_LEN as int) =~= salt@);
        assert(blob@.subrange(SALT_LEN as int, HEADER_LEN as int) =~= nonce@);
        assert(blob@.subrange(HEADER_LEN as int, blob@.len() as int) =~= ciphertext@);
    }
    Ok(blob)
}

/// Seals a plaintext under a passphrase, with a salt and a nonce drawn at
/// random. Whatever was drawn, a blob that comes out opens to the plaintext
/// under the same passphrase, and is what sealing under the salt and the
/// nonce at its head yields. An error other than the lack of random bytes
/// is the one that sealing under some salt and nonce ends in.
pub fn encrypt(passphrase: &str, plaintext: &[u8]) -> (r: Result<Vec<u8>, SealError>)
    ensures
        r matches Ok(blob) ==> {
            &&& blob@.len() == HEADER_LEN + plaintext@.len() + TAG_LEN
            &&& opened_envelope(passphrase@, blob@) == Ok::<Seq<u8>, DecryptAuthError>(plaintext@)
            &&& sealed_envelope(
                passphrase@,
                blob@.subrange(0, SALT_LEN as int),
                blob@.subrange(SALT_LEN as int, HEADER_LEN as int),
                plaintext@,
            ) == Ok::<Seq<u8>, SealError>(blob@)
        },
        r matches Err(e) ==> e == SealError::NoRandomness || exists|salt: Seq<u8>, nonce: Seq<u8>|
            salt.len() == SALT_LEN && nonce.len() == NONCE_LEN && #[trigger] sealed_envelope(
                passphrase@,
                salt,
                nonce,
                plaintext@,
            ) == Err::<Seq<u8>, SealError>(e),
{
    let salt = match random_bytes(SALT_LEN) {
        Some(salt) => salt,
        None => {
            return Err(SealError::NoRandomness);
        },
    };
    let nonce = match random_bytes(NONCE_LEN) {
        Some(nonce) => nonce,
        None => {
            return Err(SealError::NoRandomness);
        },
    };
    let r = seal_with(passphrase, salt.as_slice(), nonce.as_slice(), plaintext);
    proof {
        if r is Ok {
            let blob = r->Ok_0;
            let sealed = sealed_envelope(passphrase@, salt@, nonce@, plaintext@);
            assert(sealed == Ok::<Seq<u8>, SealError>(blob@));
            let key = argon2id_key(passphrase@, salt@, KEY_LEN as nat)->Some_0;
            let ciphertext = chacha_sealed(key, nonce@, plaintext@)->Some_0;
            assert(blob@ == framed(salt@, nonce@, ciphertext));
            assert(blob@.subrange(0, SALT_LEN as int) =~= salt@);
            assert(blob@.subrange(SALT_LEN as int, HEADER_LEN as int) =~= nonce@);
        }
    }
    r
}

/// Opens a blob under a passphrase. A wrong passphrase and a damaged blob
/// both end in the one error.
pub fn decrypt(passphrase: &str, blob: &[u8]) -> (r: Result<Vec<u8>, DecryptAuthError>)
    ensures
        opened_view(r) == opened_envelope(passphrase@, blob@),
{
    if blob.len() < HEADER_LEN + TAG_LEN {
        return Err(DecryptAuthError);
    }
    let salt = slice_subrange(blob, 0, SALT_LEN);
    let nonce = slice_subrange(blob, SALT_LEN, HEADER_LEN);
    let ciphertext = slice_subrange(blob, HEADER_LEN, blob.len());
    let key = match derive_key(passphrase, salt, KEY_LEN) {
        Some(key) => key,
        None => {
            return Err(DecryptAuthError);
        },
    };
    match aead_open(key.as_slice(), nonce, ciphertext) {
        Some(plaintext) => Ok(plaintext),
        None => Err(DecryptAuthError),
    }
}

} // verus!
