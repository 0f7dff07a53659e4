//! Authenticated encryption of byte payloads with XChaCha20-Poly1305.
//!
//! An envelope is a fresh random nonce followed by the sealed payload:
//! `nonce (24 bytes) || ciphertext || tag (16 bytes)`, with no length prefix
//! and no version byte. The key is given whole on every call; nothing is kept
//! between calls.

use vstd::prelude::*;
use crate::constants::KEY_SIZE;
use crate::constants::NONCE_SIZE;
use crate::constants::POLY1305_AUTH_TAG_SIZE;
use crate::crypt_utils::envelope_fits;
use crate::crypt_utils::envelope_nonce;
use crate::crypt_utils::envelope_body;
use crate::crypt_utils::has_ciphertext_of;
use crate::crypt_utils::is_envelope_of;
use crate::crypt_utils::opening_is_decided;
use crate::crypt_utils::key_from_slice;
use crate::crypt_utils::opened_envelope;
use crate::crypt_utils::opening_outcome;
use crate::crypt_utils::perform_decryption;
use crate::crypt_utils::perform_encryption;
use crate::crypt_utils::sealing_outcome;
use crate::crypt_utils::validate_key_size;
use crate::crypt_utils::validate_non_empty_data;
use crate::errors::CryptoError;
use crate::primitives::cipher_decides;
use crate::primitives::xchacha20poly1305_seal;

pub mod constants;
pub mod errors;
pub mod primitives;
pub mod crypt_utils;

verus! {

/// What `encrypt` returns for a plaintext and a key. The key's length is
/// looked at first, then the plaintext's; only a call that passes both
/// reaches the random source and the primitive.
pub open spec fn encrypt_outcome(
    plaintext: Seq<u8>,
    key: Seq<u8>,
    r: Result<Vec<u8>, CryptoError>,
) -> bool {
    if key.len() != KEY_SIZE {
        r matches Err(CryptoError::InvalidKeySize { size }) && size == KEY_SIZE
    } else if plaintext.len() == 0 {
        r matches Err(CryptoError::EmptyData)
    } else {
        sealing_outcome(plaintext, key, r)
    }
}

/// What `decrypt` returns for an envelope and a key. The key's length is
/// looked at first, then whether the envelope is empty, then whether it can
/// hold a nonce; only a call that passes all three reaches the primitive.
pub open spec fn decrypt_outcome(
    envelope: Seq<u8>,
    key: Seq<u8>,
    r: Result<Vec<u8>, CryptoError>,
) -> bool {
    if key.len() != KEY_SIZE {
        r matches Err(CryptoError::InvalidKeySize { size }) && size == KEY_SIZE
    } else if envelope.len() == 0 {
        r matches Err(CryptoError::EmptyData)
    } else {
        opening_outcome(envelope, key, r)
    }
}

/// Encrypts a non-empty plaintext under a 32-byte key and returns the
/// envelope, which is exactly 40 bytes longer than the plaintext.
///
/// A call that fails validation is answered whatever the plaintext's length.
/// One that passes it must bring a plaintext that leaves room for its
/// envelope and on whose length the primitive returns.
pub fn encrypt(plaintext: &[u8], key: &[u8]) -> (r: Result<Vec<u8>, CryptoError>)
    requires
        key@.len() == KEY_SIZE && plaintext@.len() > 0 ==> envelope_fits(plaintext@.len())
            && cipher_decides(plaintext@.len()),
    ensures
        encrypt_outcome(plaintext@, key@, r),
        r matches Ok(envelope) ==> envelope@.len() == plaintext@.len() + NONCE_SIZE
            + POLY1305_AUTH_TAG_SIZE,
{
    validate_key_size(key)?;
    validate_non_empty_data(plaintext)?;
    let key_data = key_from_slice(key);
    perform_encryption(plaintext, &key_data)
}

/// Decrypts an envelope under a 32-byte key and returns the plaintext, which
/// is exactly 40 bytes shorter than the envelope and of which the envelope is
/// an authentic one under that key.
///
/// A call with a key of the wrong size is answered whatever the envelope's
/// length. Under a key of the right size the envelope must be of a length on
/// which the primitive returns.
pub fn decrypt(ciphertext: &[u8], key: &[u8]) -> (r: Result<Vec<u8>, CryptoError>)
    requires
        key@.len() == KEY_SIZE ==> opening_is_decided(ciphertext@.len()),
    ensures
        decrypt_outcome(ciphertext@, key@, r),
        r matches Ok(plaintext) ==> key@.len() == KEY_SIZE && is_envelope_of(
            ciphertext@,
            key@,
            plaintext@,
        ),
        r matches Ok(plaintext) ==> plaintext@.len() + NONCE_SIZE + POLY1305_AUTH_TAG_SIZE
            == ciphertext@.len(),
{
    validate_key_size(key)?;
    validate_non_empty_data(ciphertext)?;
    let key_data = key_from_slice(key);
    perform_decryption(ciphertext, &key_data)
}

/// Decryption undoes encryption: whatever envelope `encrypt` returns for a
/// non-empty plaintext under a 32-byte key, `decrypt` returns that plaintext
/// for the envelope under the same key.
pub proof fn lemma_decrypt_inverts_encrypt(
    plaintext: Seq<u8>,
    key: Seq<u8>,
    encrypted: Result<Vec<u8>, CryptoError>,
    decrypted: Result<Vec<u8>, CryptoError>,
)
    requires
        plaintext.len() > 0,
        key.len() == KEY_SIZE,
        encrypt_outcome(plaintext, key, encrypted),
        encrypted matches Ok(envelope) && decrypt_outcome(envelope@, key, decrypted),
    ensures
        decrypted matches Ok(recovered) && recovered@ == plaintext,
{
}

/// Every envelope that `encrypt` returns is exactly 40 bytes longer than its
/// plaintext: a nonce, the ciphertext, a tag. So none is empty or too short
/// for `decrypt` to read.
pub proof fn lemma_envelope_is_well_formed(
    plaintext: Seq<u8>,
    key: Seq<u8>,
    encrypted: Result<Vec<u8>, CryptoError>,
)
    requires
        encrypt_outcome(plaintext, key, encrypted),
    ensures
        encrypted matches Ok(envelope) ==> envelope@.len() == plaintext.len() + NONCE_SIZE
            + POLY1305_AUTH_TAG_SIZE && envelope@.len() > NONCE_SIZE + POLY1305_AUTH_TAG_SIZE,
{
}

/// Past the guards on the key's length and the envelope's, the primitive's
/// verdict is all there is: a plaintext comes out only where the primitive
/// opened the envelope to it, and then the envelope is what sealing gives
/// for that plaintext under the key and the envelope's own nonce; every
/// refusal, whatever its reason, is reported as `Decryption`.
pub proof fn lemma_refusals_are_alike(
    envelope: Seq<u8>,
    key: Seq<u8>,
    decrypted: Result<Vec<u8>, CryptoError>,
)
    requires
        key.len() == KEY_SIZE,
        envelope.len() >= NONCE_SIZE,
        decrypt_outcome(envelope, key, decrypted),
    ensures
        match decrypted {
            Ok(plaintext) => opened_envelope(key, envelope) == Some(plaintext@)
                && is_envelope_of(envelope, key, plaintext@),
            Err(cause) => cause is Decryption && opened_envelope(key, envelope) is None,
        },
{
}

/// An altered tag is detected: an envelope that `encrypt` returned, changed
/// anywhere in its last 16 bytes and nowhere else, is refused under the same
/// key as `Decryption`.
pub proof fn lemma_altered_tag_is_refused(
    plaintext: Seq<u8>,
    key: Seq<u8>,
    encrypted: Result<Vec<u8>, CryptoError>,
    altered: Seq<u8>,
    decrypted: Result<Vec<u8>, CryptoError>,
)
    requires
        plaintext.len() > 0,
        key.len() == KEY_SIZE,
        encrypt_outcome(plaintext, key, encrypted),
        encrypted matches Ok(envelope) && altered.len() == envelope@.len() && altered
            != envelope@ && altered.subrange(0, altered.len() - POLY1305_AUTH_TAG_SIZE)
            == envelope@.subrange(0, altered.len() - POLY1305_AUTH_TAG_SIZE),
        decrypt_outcome(altered, key, decrypted),
    ensures
        decrypted matches Err(CryptoError::Decryption(_)),
{
    let envelope = encrypted->Ok_0@;
    let kept = altered.len() - POLY1305_AUTH_TAG_SIZE;
    let sealed = xchacha20poly1305_seal(key, envelope_nonce(envelope), plaintext);
    assert(envelope_nonce(altered) =~= envelope_nonce(envelope)) by {
        assert forall|i: int| 0 <= i < NONCE_SIZE implies altered[i] == envelope[i] by {
            assert(altered[i] == altered.subrange(0, kept)[i]);
            assert(envelope[i] == envelope.subrange(0, kept)[i]);
        }
    }
    assert(sealed.len() == plaintext.len() + POLY1305_AUTH_TAG_SIZE);
    assert(envelope_body(altered).subrange(0, plaintext.len() as int) =~= sealed.subrange(
        0,
        plaintext.len() as int,
    )) by {
        assert forall|i: int| 0 <= i < plaintext.len() implies envelope_body(altered)[i]
            == sealed[i] by {
            assert(altered[i + NONCE_SIZE] == altered.subrange(0, kept)[i + NONCE_SIZE]);
            assert(envelope[i + NONCE_SIZE] == envelope.subrange(0, kept)[i + NONCE_SIZE]);
            assert(envelope[i + NONCE_SIZE] == sealed[i]);
        }
    }
    assert(has_ciphertext_of(altered, key, plaintext));
    assert(!is_envelope_of(altered, key, plaintext));
}

} // verus!
