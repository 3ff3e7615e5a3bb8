//! The X25519 keys of the session, held as the key types of `ecdh_wrapper`.

use ecdh_wrapper::{PrivateKey, PublicKey};
use vstd::prelude::*;
use crate::wire::KEY_SIZE;

verus! {

/// The local static key pair.
#[verifier::external_type_specification]
#[verifier::external_body]
pub struct ExPrivateKey(ecdh_wrapper::PrivateKey);

/// A peer's static public key.
#[verifier::external_type_specification]
#[verifier::external_body]
pub struct ExPublicKey(ecdh_wrapper::PublicKey);

/// Relies on `PrivateKey::to_vec`, which copies the 32 private key bytes.
#[verifier::external_body]
pub(crate) fn private_key_bytes(key: &PrivateKey) -> (r: Vec<u8>)
    ensures
        r@.len() == KEY_SIZE,
{
    key.to_vec()
}

/// Relies on `PublicKey::to_vec`, which copies the 32 public key bytes.
#[verifier::external_body]
pub(crate) fn public_key_bytes(key: &PublicKey) -> (r: Vec<u8>)
    ensures
        r@.len() == KEY_SIZE,
{
    key.to_vec()
}

/// Relies on `PublicKey::from_bytes`, which loads a key from exactly 32
/// bytes into a default key.
#[verifier::external_body]
pub(crate) fn public_key_from_bytes(bytes: &[u8]) -> (r: PublicKey)
    requires
        bytes@.len() == KEY_SIZE,
{
    let mut key = PublicKey::default();
    let _ = key.from_bytes(bytes);
    key
}

} // verus!
