//! The boundary to the cryptographic primitives.
//!
//! Nothing in this file is proved. Each executable function below hands its
//! arguments to an outside crate, and its contract is taken on trust from
//! that crate's source. The rest of the library is proved against these
//! contracts.

use vstd::prelude::*;
use chacha20poly1305::aead::Aead;
use chacha20poly1305::aead::KeyInit;
use chacha20poly1305::Key;
use chacha20poly1305::XChaCha20Poly1305;
use chacha20poly1305::XNonce;
use crate::constants::KEY_SIZE;
use crate::constants::NONCE_SIZE;
use crate::constants::POLY1305_AUTH_TAG_SIZE;

verus! {

/// The bytes that XChaCha20-Poly1305 sealing gives for a key, a nonce and a
/// plaintext, with no associated data: the ciphertext followed by the tag.
pub uninterp spec fn xchacha20poly1305_seal(key: Seq<u8>, nonce: Seq<u8>, plaintext: Seq<u8>) -> Seq<u8>;

/// The plaintext that XChaCha20-Poly1305 opening gives for a key, a nonce and
/// sealed bytes, with no associated data, or `None` where it refuses them.
pub uninterp spec fn xchacha20poly1305_open(key: Seq<u8>, nonce: Seq<u8>, sealed: Seq<u8>) -> Option<Seq<u8>>;

/// The lengths that the primitive seals and opens. Its block counter has 32
/// bits and block 0 is spent on the tag's key, so `u32::MAX - 1` blocks of
/// 64 bytes are left for the message, the last of them whole or in part.
pub open spec fn within_cipher_limit(len: nat) -> bool {
    len <= 64 * (u32::MAX - 1)
}

/// The lengths that the primitive turns away with an error before it touches
/// the message: `u32::MAX` whole blocks or more.
pub open spec fn beyond_cipher_limit(len: nat) -> bool {
    len / 64 >= u32::MAX
}

/// The lengths on which the primitive returns at all. Between the two limits
/// lie 63 lengths whose last, partial block would need the counter's final
/// value: there the keystream runs out and the call panics.
pub open spec fn cipher_decides(len: nat) -> bool {
    within_cipher_limit(len) || beyond_cipher_limit(len)
}

/// What opening came to, as plain bytes: the plaintext, or `None` for a refusal.
pub open spec fn plain_outcome(r: Result<Vec<u8>, chacha20poly1305::aead::Error>) -> Option<
    Seq<u8>,
> {
    match r {
        Ok(plaintext) => Some(plaintext@),
        Err(_) => None,
    }
}

/// Opening undoes sealing: if `sealed` is what sealing gives for some
/// plaintext within the cipher's limit, under `key` and `nonce`, then `opened`
/// is that plaintext.
pub open spec fn opens_what_was_sealed(
    key: Seq<u8>,
    nonce: Seq<u8>,
    sealed: Seq<u8>,
    opened: Option<Seq<u8>>,
) -> bool {
    forall|plaintext: Seq<u8>|
        within_cipher_limit(plaintext.len()) && sealed == #[trigger] xchacha20poly1305_seal(
            key,
            nonce,
            plaintext,
        ) ==> opened == Some(plaintext)
}

/// One ciphertext belongs to one plaintext: the sealed bytes begin with the
/// plaintext under a keystream that key and nonce fix. So if `sealed` begins
/// with the ciphertext of some plaintext within the cipher's limit, and
/// anything is opened, it is that plaintext.
pub open spec fn opens_what_the_ciphertext_holds(
    key: Seq<u8>,
    nonce: Seq<u8>,
    sealed: Seq<u8>,
    opened: Option<Seq<u8>>,
) -> bool {
    forall|plaintext: Seq<u8>|
        within_cipher_limit(plaintext.len()) && plaintext.len() + POLY1305_AUTH_TAG_SIZE
            == sealed.len() && (#[trigger] xchacha20poly1305_seal(key, nonce, plaintext)).subrange(
            0,
            plaintext.len() as int,
        ) == sealed.subrange(0, plaintext.len() as int) ==> (opened is Some ==> opened == Some(
            plaintext,
        ))
}

/// Calls `getrandom::getrandom` on a fresh buffer of nonce length.
///
/// Nothing is claimed of the bytes: they differ from call to call. On failure
/// the source's own error is handed on.
#[verifier::external_body]
pub(crate) fn fill_random_nonce() -> (r: Result<[u8; NONCE_SIZE], getrandom::Error>)
{
    let mut raw_nonce = [0u8; NONCE_SIZE];
    match getrandom::getrandom(&mut raw_nonce) {
        Ok(()) => Ok(raw_nonce),
        Err(cause) => Err(cause),
    }
}

/// Calls `Aead::encrypt` of `XChaCha20Poly1305` with the plaintext as the
/// whole payload.
///
/// Claimed of it: it succeeds exactly on a plaintext within the cipher's
/// limit, and fails on one beyond it; a result is a function of key, nonce
/// and plaintext alone, and is as long as the plaintext plus the tag. Left
/// out are the inputs on which the call panics: a plaintext whose result
/// would exceed `isize::MAX` bytes, which it allocates up front, and the
/// lengths between the cipher's two limits.
#[verifier::external_body]
pub(crate) fn aead_seal(key: &[u8; KEY_SIZE], nonce: &[u8], plaintext: &[u8]) -> (r: Result<
    Vec<u8>,
    chacha20poly1305::aead::Error,
>)
    requires
        nonce@.len() == NONCE_SIZE,
        plaintext@.len() + POLY1305_AUTH_TAG_SIZE <= isize::MAX,
        cipher_decides(plaintext@.len()),
    ensures
        r is Ok <==> within_cipher_limit(plaintext@.len()),
        r matches Ok(sealed) ==> sealed@ == xchacha20poly1305_seal(key@, nonce@, plaintext@)
            && sealed@.len() == plaintext@.len() + POLY1305_AUTH_TAG_SIZE,
{
    let cipher = XChaCha20Poly1305::new(Key::from_slice(key));
    cipher.encrypt(XNonce::from_slice(nonce), plaintext)
}

/// Calls `Aead::decrypt` of `XChaCha20Poly1305` with the sealed bytes as the
/// whole payload.
///
/// Claimed of it: whether it succeeds, and with what, is a function of key,
/// nonce and sealed bytes alone; a plaintext that comes out is shorter than
/// the sealed bytes by the tag; it comes out only where the tag verifies, so
/// the sealed bytes are what sealing gives for it under this key and nonce;
/// bytes that sealing gave for a plaintext within the cipher's limit open to
/// that plaintext; and it is the plaintext whose ciphertext the sealed bytes
/// begin with, opening being the same keystream applied again. Left out are the inputs on which the call may panic:
/// sealed bytes that hold, before the tag, a message of a length between the
/// cipher's two limits.
#[verifier::external_body]
pub(crate) fn aead_open(key: &[u8; KEY_SIZE], nonce: &[u8], sealed: &[u8]) -> (r: Result<
    Vec<u8>,
    chacha20poly1305::aead::Error,
>)
    requires
        nonce@.len() == NONCE_SIZE,
        sealed@.len() >= POLY1305_AUTH_TAG_SIZE ==> cipher_decides(
            (sealed@.len() - POLY1305_AUTH_TAG_SIZE) as nat,
        ),
    ensures
        plain_outcome(r) == xchacha20poly1305_open(key@, nonce@, sealed@),
        r matches Ok(plaintext) ==> plaintext@.len() + POLY1305_AUTH_TAG_SIZE == sealed@.len(),
        r matches Ok(plaintext) ==> sealed@ == xchacha20poly1305_seal(key@, nonce@, plaintext@),
        opens_what_was_sealed(key@, nonce@, sealed@, plain_outcome(r)),
        opens_what_the_ciphertext_holds(key@, nonce@, sealed@, plain_outcome(r)),
{
    let cipher = XChaCha20Poly1305::new(Key::from_slice(key));
    cipher.decrypt(XNonce::from_slice(nonce), sealed)
}

} // verus!
