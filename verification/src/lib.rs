//! Password-protected transport of a binary payload through a single
//! printable string, sized for embedding in a 2-D barcode.
//!
//! The pipeline turns raw bytes plus a password into a compact printable
//! string and back: compress, encrypt under a key derived from the password
//! and a fresh salt, pack salt and ciphertext into a self-describing binary
//! record, and encode that record as text. Decoding is the exact mirror and
//! recovers the original bytes only under the correct password.

use vstd::prelude::*;

pub mod crypto;
pub mod processor;
pub mod record;

verus! {

/// Ceiling, in bytes, of what the target barcode symbology can carry at the
/// error-correction level this system renders with. The codec itself imposes
/// no limit; callers hold the transport string's length against this bound.
pub const QR_CAPACITY_LIMIT: usize = 2953;

/// Says whether a transport string of `len` bytes fits the barcode capacity
/// ceiling. The check belongs to the caller of the codec, not to the codec.
pub fn fits_barcode_capacity(len: usize) -> (r: bool)
    ensures
        r <==> len < QR_CAPACITY_LIMIT,
{
    len < QR_CAPACITY_LIMIT
}

} // verus!
