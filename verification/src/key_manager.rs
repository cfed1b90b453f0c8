//! The capability that holds the keys of a DID.
//!
//! The methods of this crate never see key material. A method that creates a DID is
//! handed a key manager, asks it for keys, and binds it to the DID it made. How keys are
//! generated, kept and used is the business of the implementor.

use vstd::prelude::*;

verus! {

/// Why a key manager could not do what it was asked.
#[derive(Debug, Clone, Copy, PartialEq, Eq, Structural)]
pub enum KeyManagerError {
    /// A key could not be generated or stored.
    KeyGenerationFailed,
    /// No key is kept under the alias given.
    KeyNotFound,
    /// The key was found and the signature could not be made.
    SigningFailed,
}

/// A store of private keys that signs on request and never hands a private key out.
///
/// A key manager is shared: several methods and several DIDs may hold the same one and
/// call it at the same time, so its operations take `&self`.
pub trait KeyManager: Send + Sync {
    /// Generates a private key, keeps it, and returns the alias under which it is kept.
    fn generate_private_key(&self) -> Result<String, KeyManagerError>;

    /// Signs `payload` with the private key kept under `key_alias`.
    fn sign(&self, key_alias: &str, payload: &[u8]) -> Result<Vec<u8>, KeyManagerError>;
}

} // verus!
