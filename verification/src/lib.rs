//! Core of a local authenticator: time-based one-time-password entries,
//! the encrypted vault that stores them, and the session that unlocks it.
//!
//! The crate is verified, but for the few calls into other crates: those sit
//! behind small trusted functions, each documented where it is declared.

use vstd::prelude::*;

pub mod app;
pub mod clock;
pub mod entry;
pub mod envelope;
pub mod errors;
pub mod icon;
pub mod secrets;
pub mod session;
pub mod totp;
pub mod views;

verus! {

/// Identifier under which the vault is addressed in the platform stores.
pub const APP_ID: &'static str = "com.koranir.CosmicTotpClient";

/// Version of the configuration layout.
pub const CONFIG_VER: u64 = 1;

/// Where the vault of an identity is kept.
#[derive(Clone, Copy, Debug, PartialEq, Eq, Structural)]
pub enum Backend {
    /// In the platform's credential store, as it is.
    Keyring,
    /// In the application's configuration, encrypted under a passphrase.
    Passphrase,
}

/// What a session is started with.
#[derive(Clone, Copy, Debug, PartialEq, Eq, Structural)]
pub struct AppConfig {
    pub backend: Backend,
}

} // verus!
