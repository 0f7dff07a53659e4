//! The closed set of failures that a call can end in.

use vstd::prelude::*;

verus! {

/// The error type of the random source. Nothing inside it is read here; it is
/// carried to the caller as the cause of a failed nonce draw.
#[verifier::external_type_specification]
#[verifier::external_body]
pub struct ExRandomSourceError(getrandom::Error);

/// The error type of the AEAD primitive: a unit value that deliberately tells
/// nothing about why sealing or opening failed.
#[verifier::external_type_specification]
#[verifier::external_body]
pub struct ExAeadError(chacha20poly1305::aead::Error);

/// Why a call failed. Every failure is final for the call that met it; no
/// variant holds key, plaintext or ciphertext bytes.
#[derive(Debug)]
pub enum CryptoError {
    /// The key does not have exactly `size` bytes.
    InvalidKeySize { size: usize },
    /// The payload (plaintext or envelope) has no bytes.
    EmptyData,
    /// The random source could not deliver a nonce.
    NonceGeneration(getrandom::Error),
    /// The primitive refused to seal the plaintext.
    Encryption(chacha20poly1305::aead::Error),
    /// The primitive refused to open the envelope: wrong key, altered or
    /// truncated bytes. The cases are not told apart.
    Decryption(chacha20poly1305::aead::Error),
    /// The envelope is too short to hold a nonce.
    MalformedEnvelope,
}

} // verus!
