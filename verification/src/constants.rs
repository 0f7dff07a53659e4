//! Fixed sizes of the envelope's parts, as RFC 8439 and its extended-nonce
//! variant give them.

use vstd::prelude::*;

verus! {

/// Length of a key in bytes (256 bits).
pub const KEY_SIZE: usize = 32;

/// Length of an extended nonce in bytes (192 bits).
pub const NONCE_SIZE: usize = 24;

/// Length of the Poly1305 authentication tag in bytes.
pub const POLY1305_AUTH_TAG_SIZE: usize = 16;

} // verus!
