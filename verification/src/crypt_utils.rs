//! Validation of the inputs, and the envelope codec: drawing a nonce, sealing
//! and framing, unframing and opening.

use vstd::prelude::*;
use vstd::slice::slice_subrange;
use crate::constants::KEY_SIZE;
use crate::constants::NONCE_SIZE;
use crate::constants::POLY1305_AUTH_TAG_SIZE;
use crate::errors::CryptoError;
use crate::primitives::aead_open;
use crate::primitives::aead_seal;
use crate::primitives::fill_random_nonce;
use crate::primitives::beyond_cipher_limit;
use crate::primitives::cipher_decides;
use crate::primitives::within_cipher_limit;
use crate::primitives::xchacha20poly1305_open;
use crate::primitives::xchacha20poly1305_seal;

verus! {

/// The first `NONCE_SIZE` bytes of an envelope.
pub open spec fn envelope_nonce(envelope: Seq<u8>) -> Seq<u8>
    recommends
        envelope.len() >= NONCE_SIZE,
{
    envelope.subrange(0, NONCE_SIZE as int)
}

/// What follows the nonce in an envelope: ciphertext and tag.
pub open spec fn envelope_body(envelope: Seq<u8>) -> Seq<u8>
    recommends
        envelope.len() >= NONCE_SIZE,
{
    envelope.subrange(NONCE_SIZE as int, envelope.len() as int)
}

/// The envelope of `plaintext` under `key`, sealed with `nonce`.
pub open spec fn envelope_of(key: Seq<u8>, nonce: Seq<u8>, plaintext: Seq<u8>) -> Seq<u8> {
    nonce + xchacha20poly1305_seal(key, nonce, plaintext)
}

/// `envelope` is an envelope of `plaintext` under `key`: it begins with
/// some nonce, goes on with what sealing gives under that nonce, and is 40 bytes
/// longer than the plaintext.
pub open spec fn is_envelope_of(envelope: Seq<u8>, key: Seq<u8>, plaintext: Seq<u8>) -> bool {
    &&& envelope.len() == plaintext.len() + NONCE_SIZE + POLY1305_AUTH_TAG_SIZE
    &&& envelope == envelope_of(key, envelope_nonce(envelope), plaintext)
}

/// `envelope` has the length of an envelope of `plaintext` and, after its
/// nonce, the ciphertext that sealing gives for `plaintext` under `key` and
/// that nonce. Of its tag nothing is said.
pub open spec fn has_ciphertext_of(envelope: Seq<u8>, key: Seq<u8>, plaintext: Seq<u8>) -> bool {
    &&& envelope.len() == plaintext.len() + NONCE_SIZE + POLY1305_AUTH_TAG_SIZE
    &&& envelope_body(envelope).subrange(0, plaintext.len() as int) == xchacha20poly1305_seal(
        key,
        envelope_nonce(envelope),
        plaintext,
    ).subrange(0, plaintext.len() as int)
}

/// What opening an envelope of at least nonce length comes to under `key`.
pub open spec fn opened_envelope(key: Seq<u8>, envelope: Seq<u8>) -> Option<Seq<u8>>
    recommends
        envelope.len() >= NONCE_SIZE,
{
    xchacha20poly1305_open(key, envelope_nonce(envelope), envelope_body(envelope))
}

/// A plaintext of this length leaves room for its envelope in one
/// allocation, which holds at most `isize::MAX` bytes.
pub open spec fn envelope_fits(plaintext_len: nat) -> bool {
    plaintext_len + NONCE_SIZE + POLY1305_AUTH_TAG_SIZE <= isize::MAX
}

/// The primitive returns on every envelope of this length: it holds no whole
/// tag, or the message before its tag has a length that the cipher decides.
pub open spec fn opening_is_decided(envelope_len: nat) -> bool {
    envelope_len >= NONCE_SIZE + POLY1305_AUTH_TAG_SIZE ==> cipher_decides(
        (envelope_len - NONCE_SIZE - POLY1305_AUTH_TAG_SIZE) as nat,
    )
}

/// Accepts a key of exactly `KEY_SIZE` bytes, and no other.
pub fn validate_key_size(key: &[u8]) -> (r: Result<(), CryptoError>)
    ensures
        key@.len() == KEY_SIZE ==> r is Ok,
        key@.len() != KEY_SIZE ==> (r matches Err(CryptoError::InvalidKeySize { size })
            && size == KEY_SIZE),
{
    if key.len() != KEY_SIZE {
        return Err(CryptoError::InvalidKeySize { size: KEY_SIZE });
    }
    Ok(())
}

/// Accepts any payload but the empty one.
pub fn validate_non_empty_data(data: &[u8]) -> (r: Result<(), CryptoError>)
    ensures
        data@.len() > 0 ==> r is Ok,
        data@.len() == 0 ==> r matches Err(CryptoError::EmptyData),
{
    if data.len() == 0 {
        return Err(CryptoError::EmptyData);
    }
    Ok(())
}

/// Copies a validated key into the fixed-size form that the codec takes.
pub fn key_from_slice(key: &[u8]) -> (fixed: [u8; KEY_SIZE])
    requires
        key@.len() == KEY_SIZE,
    ensures
        fixed@ == key@,
{
    let mut fixed = [0u8; KEY_SIZE];
    let mut i: usize = 0;
    while i < KEY_SIZE
        invariant
            i <= KEY_SIZE,
            key@.len() == KEY_SIZE,
            forall|j: int| 0 <= j < i ==> fixed@[j] == key@[j],
        decreases KEY_SIZE - i,
    {
        fixed[i] = key[i];
        i += 1;
    }
    assert(fixed@ =~= key@);
    fixed
}

/// Frames an envelope: the nonce first, then the sealed bytes, nothing between
/// or after them.
pub fn frame_envelope(nonce: &[u8; NONCE_SIZE], mut sealed: Vec<u8>) -> (envelope: Vec<u8>)
    requires
        sealed@.len() + NONCE_SIZE <= isize::MAX,
    ensures
        envelope@ == nonce@ + sealed@,
        envelope_nonce(envelope@) == nonce@,
        envelope_body(envelope@) == sealed@,
{
    let ghost body = sealed@;
    let mut envelope: Vec<u8> = Vec::with_capacity(sealed.len() + NONCE_SIZE);
    envelope.extend_from_slice(nonce.as_slice());
    assert(envelope@ =~= nonce@);
    envelope.append(&mut sealed);
    assert(envelope_nonce(envelope@) =~= nonce@);
    assert(envelope_body(envelope@) =~= body);
    envelope
}

/// Splits an envelope into its nonce and its body. One that is too short to
/// hold a nonce is malformed; any other splits.
pub fn split_envelope(envelope: &[u8]) -> (r: Result<(&[u8], &[u8]), CryptoError>)
    ensures
        envelope@.len() < NONCE_SIZE ==> r matches Err(CryptoError::MalformedEnvelope),
        envelope@.len() >= NONCE_SIZE ==> (r matches Ok((nonce, body)) && nonce@
            == envelope_nonce(envelope@) && body@ == envelope_body(envelope@)),
{
    if envelope.len() < NONCE_SIZE {
        return Err(CryptoError::MalformedEnvelope);
    }
    let nonce = slice_subrange(envelope, 0, NONCE_SIZE);
    let body = slice_subrange(envelope, NONCE_SIZE, envelope.len());
    Ok((nonce, body))
}

/// What sealing a plaintext under a key may come to, the nonce being drawn
/// afresh: an envelope of that plaintext, a failed draw, or the primitive's
/// refusal of a plaintext beyond its limit.
pub open spec fn sealing_outcome(
    plaintext: Seq<u8>,
    key: Seq<u8>,
    r: Result<Vec<u8>, CryptoError>,
) -> bool {
    match r {
        Ok(envelope) => within_cipher_limit(plaintext.len()) && is_envelope_of(
            envelope@,
            key,
            plaintext,
        ),
        Err(CryptoError::NonceGeneration(_)) => true,
        Err(CryptoError::Encryption(_)) => beyond_cipher_limit(plaintext.len()),
        Err(_) => false,
    }
}

/// What opening an envelope under a key comes to. One too short for a nonce
/// is malformed. Any other goes to the primitive, whose verdict is final: its
/// plaintext, or one and the same error for every refusal. A plaintext comes
/// back only for an envelope of that plaintext under the key, and an
/// envelope of a plaintext within the cipher's limit opens to that plaintext.
/// An envelope that has the ciphertext of such a plaintext and is yet no
/// envelope of it, its tag being another, is refused.
pub open spec fn opening_outcome(
    envelope: Seq<u8>,
    key: Seq<u8>,
    r: Result<Vec<u8>, CryptoError>,
) -> bool {
    if envelope.len() < NONCE_SIZE {
        r matches Err(CryptoError::MalformedEnvelope)
    } else {
        &&& match r {
            Ok(plaintext) => opened_envelope(key, envelope) == Some(plaintext@)
                && is_envelope_of(envelope, key, plaintext@),
            Err(CryptoError::Decryption(_)) => opened_envelope(key, envelope) is None,
            Err(_) => false,
        }
        &&& forall|plaintext: Seq<u8>|
            within_cipher_limit(plaintext.len()) && #[trigger] is_envelope_of(
                envelope,
                key,
                plaintext,
            ) ==> (r matches Ok(opened) && opened@ == plaintext)
        &&& forall|plaintext: Seq<u8>|
            within_cipher_limit(plaintext.len()) && #[trigger] has_ciphertext_of(
                envelope,
                key,
                plaintext,
            ) && !is_envelope_of(envelope, key, plaintext) ==> r matches Err(
                CryptoError::Decryption(_),
            )
    }
}

/// Turns what the random source gave into a nonce or this library's error:
/// the drawn bytes as they are, or the source's failure as the cause.
pub fn nonce_from_draw(draw: Result<[u8; NONCE_SIZE], getrandom::Error>) -> (r: Result<
    [u8; NONCE_SIZE],
    CryptoError,
>)
    ensures
        match draw {
            Ok(drawn) => r matches Ok(nonce) && nonce == drawn,
            Err(cause) => r matches Err(CryptoError::NonceGeneration(kept)) && kept == cause,
        },
{
    match draw {
        Ok(drawn) => Ok(drawn),
        Err(cause) => Err(CryptoError::NonceGeneration(cause)),
    }
}

/// Turns what sealing gave into an envelope or this library's error: the
/// nonce followed by the sealed bytes, or the primitive's refusal as the
/// cause.
pub fn envelope_from_sealed(
    nonce: &[u8; NONCE_SIZE],
    sealed: Result<Vec<u8>, chacha20poly1305::aead::Error>,
) -> (r: Result<Vec<u8>, CryptoError>)
    requires
        sealed matches Ok(body) ==> body@.len() + NONCE_SIZE <= isize::MAX,
    ensures
        match sealed {
            Ok(body) => r matches Ok(envelope) && envelope@ == nonce@ + body@ && envelope_nonce(
                envelope@,
            ) == nonce@ && envelope_body(envelope@) == body@,
            Err(cause) => r matches Err(CryptoError::Encryption(kept)) && kept == cause,
        },
{
    match sealed {
        Ok(body) => Ok(frame_envelope(nonce, body)),
        Err(cause) => Err(CryptoError::Encryption(cause)),
    }
}

/// Turns what opening gave into the plaintext or this library's error: the
/// opened bytes as they are, or the primitive's refusal as the cause.
pub fn plaintext_from_opened(opened: Result<Vec<u8>, chacha20poly1305::aead::Error>) -> (r: Result<
    Vec<u8>,
    CryptoError,
>)
    ensures
        match opened {
            Ok(bytes) => r matches Ok(plaintext) && plaintext == bytes,
            Err(cause) => r matches Err(CryptoError::Decryption(kept)) && kept == cause,
        },
{
    match opened {
        Ok(bytes) => Ok(bytes),
        Err(cause) => Err(CryptoError::Decryption(cause)),
    }
}

/// Draws a fresh nonce from the system's random source. A failure of the
/// source is final; there is no second draw.
fn generate_random_nonce() -> (r: Result<[u8; NONCE_SIZE], CryptoError>)
    ensures
        r is Err ==> r matches Err(CryptoError::NonceGeneration(_)),
{
    nonce_from_draw(fill_random_nonce())
}

/// Seals `plaintext` under `key` with the given nonce and frames the envelope.
/// The result is fixed by the three arguments; it fails only where the
/// plaintext is beyond the cipher's limit. A plaintext of one of the lengths
/// on which the primitive does not return is not taken.
pub fn seal_envelope(plaintext: &[u8], key: &[u8; KEY_SIZE], nonce: &[u8; NONCE_SIZE]) -> (r:
    Result<Vec<u8>, CryptoError>)
    requires
        envelope_fits(plaintext@.len()),
        cipher_decides(plaintext@.len()),
    ensures
        within_cipher_limit(plaintext@.len()) ==> (r matches Ok(envelope) && envelope@
            == envelope_of(key@, nonce@, plaintext@) && envelope_nonce(envelope@) == nonce@
            && is_envelope_of(envelope@, key@, plaintext@)),
        beyond_cipher_limit(plaintext@.len()) ==> r matches Err(CryptoError::Encryption(_)),
{
    let sealed = aead_seal(key, nonce.as_slice(), plaintext);
    envelope_from_sealed(nonce, sealed)
}

/// Encrypts `plaintext` under `key` with a fresh random nonce, and returns the
/// envelope. The plaintext must leave room for its envelope and be of a
/// length on which the primitive returns.
pub fn perform_encryption(plaintext: &[u8], key: &[u8; KEY_SIZE]) -> (r: Result<
    Vec<u8>,
    CryptoError,
>)
    requires
        envelope_fits(plaintext@.len()),
        cipher_decides(plaintext@.len()),
    ensures
        sealing_outcome(plaintext@, key@, r),
{
    let raw_nonce = generate_random_nonce()?;
    seal_envelope(plaintext, key, &raw_nonce)
}

/// Decrypts an envelope under `key`, and returns the plaintext that the
/// primitive vouches for. The envelope must be of a length on which the
/// primitive returns.
pub fn perform_decryption(ciphertext: &[u8], key: &[u8; KEY_SIZE]) -> (r: Result<
    Vec<u8>,
    CryptoError,
>)
    requires
        opening_is_decided(ciphertext@.len()),
    ensures
        opening_outcome(ciphertext@, key@, r),
{
    let (nonce, body) = split_envelope(ciphertext)?;
    let opened = aead_open(key, nonce, body);
    proof {
        assert(ciphertext@ =~= nonce@ + body@);
        assert forall|plaintext: Seq<u8>|
            within_cipher_limit(plaintext.len()) && #[trigger] is_envelope_of(
                ciphertext@,
                key@,
                plaintext,
            ) implies body@ == xchacha20poly1305_seal(key@, nonce@, plaintext) by {
            assert(body@ =~= xchacha20poly1305_seal(key@, nonce@, plaintext));
        }
    }
    plaintext_from_opened(opened)
}

} // verus!
