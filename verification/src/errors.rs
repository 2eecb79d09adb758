//! What can go wrong around the vault, and the notices shown for it.

use vstd::prelude::*;
use vstd::string::*;
use crate::envelope::SealError;

verus! {

/// A notice that stays on screen until the user dismisses it.
#[derive(Debug, PartialEq, Eq)]
pub struct ErrorMsg {
    /// Identifier by which the notice is dismissed.
    pub id: u32,
    pub msg: String,
}

/// Mathematical value of an [`ErrorMsg`].
pub struct ErrorView {
    pub id: u32,
    pub msg: Seq<char>,
}

impl View for ErrorMsg {
    type V = ErrorView;

    open spec fn view(&self) -> ErrorView {
        ErrorView { id: self.id, msg: self.msg@ }
    }
}

/// The identifier that follows `id`; after the largest comes zero.
pub open spec fn next_error_id(id: u32) -> u32 {
    if id == u32::MAX {
        0
    } else {
        (id + 1) as u32
    }
}

/// First identifier that a session hands out.
pub const FIRST_ERROR_ID: u32 = 1;

impl ErrorMsg {
    /// A notice under the next identifier of the session's counter `ids`,
    /// which moves on by one.
    pub fn new(ids: &mut u32, msg: String) -> (notice: ErrorMsg)
        ensures
            notice@ == (ErrorView { id: *old(ids), msg: msg@ }),
            *final(ids) == next_error_id(*old(ids)),
    {
        let id = *ids;
        *ids = if id == u32::MAX {
            0
        } else {
            id + 1
        };
        ErrorMsg { id, msg }
    }
}

/// A failure of loading or saving the vault. None of them ends the session.
#[derive(Debug, Clone, PartialEq, Eq)]
pub enum VaultError {
    /// The passphrase is wrong or the stored bytes are damaged.
    DecryptAuth,
    /// The stored bytes are not a vault.
    Parse(String),
    /// The vault could not be turned into bytes.
    Serialize(String),
    /// The platform's credential store failed.
    PlatformStore(String),
    /// The background worker failed.
    BackgroundTask(String),
    /// The vault could not be encrypted.
    Seal(SealError),
    /// The vault is to be encrypted and no passphrase was entered.
    PassphraseMissing,
}

impl VaultError {
    /// The text of the notice for this failure.
    pub open spec fn spec_message(&self) -> Seq<char> {
        match self {
            VaultError::DecryptAuth => "Wrong passphrase, or the stored vault is damaged"@,
            VaultError::Parse(detail) => "Couldn't deserialise secret store: "@ + detail@,
            VaultError::Serialize(detail) => "Failed to serialise secrets: "@ + detail@,
            VaultError::PlatformStore(detail) => detail@,
            VaultError::BackgroundTask(detail) => "Couldn't join secret retrieving thread: "@ + detail@,
            VaultError::Seal(SealError::NoRandomness) => "Couldn't encrypt the vault: no random bytes"@,
            VaultError::Seal(SealError::KeyDerivation) => "Couldn't encrypt the vault: no key from this passphrase"@,
            VaultError::Seal(SealError::Cipher) => "Couldn't encrypt the vault: the vault is too large"@,
            VaultError::PassphraseMissing => "Couldn't encrypt the vault: no passphrase was entered"@,
        }
    }

    /// The text of the notice for this failure.
    pub fn message(&self) -> (text: String)
        ensures
            text@ == self.spec_message(),
    {
        match self {
            VaultError::DecryptAuth => String::from_str("Wrong passphrase, or the stored vault is damaged"),
            VaultError::Parse(detail) => String::from_str("Couldn't deserialise secret store: ").concat(
                detail.as_str(),
            ),
            VaultError::Serialize(detail) => String::from_str("Failed to serialise secrets: ").concat(
                detail.as_str(),
            ),
            VaultError::PlatformStore(detail) => detail.clone(),
            VaultError::BackgroundTask(detail) => String::from_str(
                "Couldn't join secret retrieving thread: ",
            ).concat(detail.as_str()),
            VaultError::Seal(SealError::NoRandomness) => String::from_str(
                "Couldn't encrypt the vault: no random bytes",
            ),
            VaultError::Seal(SealError::KeyDerivation) => String::from_str(
                "Couldn't encrypt the vault: no key from this passphrase",
            ),
            VaultError::Seal(SealError::Cipher) => String::from_str(
                "Couldn't encrypt the vault: the vault is too large",
            ),
            VaultError::PassphraseMissing => String::from_str(
                "Couldn't encrypt the vault: no passphrase was entered",
            ),
        }
    }
}

} // verus!
