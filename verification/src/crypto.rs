//! Key derivation and authenticated symmetric encryption.
//!
//! A password plus a random salt is turned into a fixed-length key by a
//! deliberately slow, memory-hard derivation, and an opaque byte buffer is
//! encrypted and authenticated under that key with a fresh random nonce.
//! The nonce is carried in front of the ciphertext it protects. Decryption
//! reports a single failure for both a wrong key and tampered data, so that
//! a caller learns nothing about which of the two it was.

use sodiumoxide::crypto::pwhash::argon2i13;
use sodiumoxide::crypto::secretbox;
use vstd::prelude::*;

verus! {

/// Length in bytes of a key-derivation salt.
pub const SALT_LEN: usize = 16;

/// Length in bytes of a derived symmetric key.
pub const KEY_LEN: usize = 32;

/// Length in bytes of an encryption nonce.
pub const NONCE_LEN: usize = 24;

/// Length in bytes of the authentication tag appended to a ciphertext.
pub const TAG_LEN: usize = 16;

#[derive(Clone, Copy, Debug, PartialEq, Eq, Structural)]
pub enum CryptoError {
    KeyDerivationFailed,
    EncryptionFailed,
    DecryptionFailed,
    InvalidSalt,
    InvalidPassword,
}

impl CryptoError {
    /// A short description of the error, suitable for a user-facing message.
    pub fn message(&self) -> (r: &'static str) {
        match self {
            CryptoError::KeyDerivationFailed => "Key derivation failed",
            CryptoError::EncryptionFailed => "Encryption failed",
            CryptoError::DecryptionFailed => "Decryption failed (bad key or corrupted data)",
            CryptoError::InvalidSalt => "Invalid salt length",
            CryptoError::InvalidPassword => "Invalid password",
        }
    }
}

/// A derived symmetric key. Lives only in memory, for the span of one
/// encrypt or decrypt call.
pub struct Key {
    pub bytes: Vec<u8>,
}

impl Key {
    /// A key is well formed when it has the cipher's fixed length.
    pub open spec fn valid(&self) -> bool {
        self.bytes@.len() == KEY_LEN
    }
}

/// The key that the memory-hard derivation yields for a password and a salt:
/// a fixed function of the two, the same in every process and on every
/// machine.
pub uninterp spec fn derived_key_bytes(password: Seq<char>, salt: Seq<u8>) -> Seq<u8>;

/// What verifying and decrypting a ciphertext under a nonce and key yields:
/// the plaintext when ciphertext and tag are authentic, nothing otherwise.
/// A fixed function of its three arguments.
pub uninterp spec fn opened(c: Seq<u8>, nonce: Seq<u8>, key: Seq<u8>) -> Option<Seq<u8>>;

/// What decrypting a combined `nonce ‖ ciphertext ‖ tag` buffer under a key
/// yields. Buffers shorter than a nonce decrypt to nothing.
pub open spec fn decrypted(blob: Seq<u8>, key: Seq<u8>) -> Option<Seq<u8>> {
    if blob.len() < NONCE_LEN {
        None
    } else {
        opened(blob.skip(NONCE_LEN as int), blob.take(NONCE_LEN as int), key)
    }
}

/// One-time initialization of the cryptographic subsystem. Idempotent and
/// safe to call repeatedly, from any thread.
///
/// Relies on sodiumoxide::init. Its (practically unreachable) failure is
/// ignored here; a derivation attempted after such a failure fails on its
/// own and is reported by the caller.
#[verifier::external_body]
pub fn init() {
    let _ = sodiumoxide::init();
}

/// Returns a fresh random salt of the derivation algorithm's fixed length.
///
/// Relies on sodiumoxide's pwhash::argon2i13::gen_salt; of a random value
/// nothing is promised beyond its length.
#[verifier::external_body]
pub fn generate_salt() -> (r: Vec<u8>)
    ensures
        r@.len() == SALT_LEN,
{
    sodiumoxide::crypto::pwhash::argon2i13::gen_salt().0.to_vec()
}

/// Relies on sodiumoxide's pwhash::argon2i13::derive_key with the moderate
/// cost parameters: deterministic in (password, salt), it fills a buffer of
/// the cipher's key length, and fails only when the underlying derivation
/// cannot complete (a resource failure).
#[verifier::external_body]
fn argon2_derive_key(password: &str, salt: &Vec<u8>) -> (r: Option<Vec<u8>>)
    requires
        salt@.len() == SALT_LEN,
    ensures
        r matches Some(k) ==> k@ == derived_key_bytes(password@, salt@) && k@.len() == KEY_LEN,
{
    let salt = argon2i13::Salt::from_slice(salt)?;
    let mut key_bytes = [0u8; secretbox::KEYBYTES];
    match argon2i13::derive_key(
        &mut key_bytes,
        password.as_bytes(),
        &salt,
        argon2i13::OPSLIMIT_MODERATE,
        argon2i13::MEMLIMIT_MODERATE,
    ) {
        Ok(_) => Some(key_bytes.to_vec()),
        Err(()) => None,
    }
}

/// Returns a fresh random nonce of the cipher's fixed length.
///
/// Relies on sodiumoxide's secretbox::gen_nonce; of a random value nothing
/// is promised beyond its length.
#[verifier::external_body]
fn generate_nonce() -> (r: Vec<u8>)
    ensures
        r@.len() == NONCE_LEN,
{
    sodiumoxide::crypto::secretbox::gen_nonce().0.to_vec()
}

/// Relies on sodiumoxide's secretbox::seal (XSalsa20-Poly1305): the
/// ciphertext is exactly a tag longer than the message, and secretbox::open
/// inverts it under the same nonce and key.
#[verifier::external_body]
fn secretbox_seal(m: &[u8], nonce: &Vec<u8>, key: &Vec<u8>) -> (r: Vec<u8>)
    requires
        nonce@.len() == NONCE_LEN,
        key@.len() == KEY_LEN,
        m@.len() + TAG_LEN <= usize::MAX,
    ensures
        r@.len() == m@.len() + TAG_LEN,
        opened(r@, nonce@, key@) == Some(m@),
{
    let n = secretbox::Nonce::from_slice(nonce).unwrap();
    let k = secretbox::Key::from_slice(key).unwrap();
    secretbox::seal(m, &n, &k)
}

/// Relies on sodiumoxide's secretbox::open: deterministic in its arguments,
/// it returns the plaintext exactly when the ciphertext and its tag verify
/// under the nonce and key, and fails otherwise.
#[verifier::external_body]
fn secretbox_open(c: &[u8], nonce: &Vec<u8>, key: &Vec<u8>) -> (r: Option<Vec<u8>>)
    requires
        nonce@.len() == NONCE_LEN,
        key@.len() == KEY_LEN,
    ensures
        r matches Some(m) ==> opened(c@, nonce@, key@) == Some(m@),
        r is None ==> opened(c@, nonce@, key@) is None,
{
    let n = secretbox::Nonce::from_slice(nonce).unwrap();
    let k = secretbox::Key::from_slice(key).unwrap();
    match secretbox::open(c, &n, &k) {
        Ok(m) => Some(m),
        Err(()) => None,
    }
}

/// Derives the symmetric key for a password and a salt. Deterministic for a
/// fixed pair; an empty password is rejected before any derivation work.
pub fn derive_key(password: &str, salt: &Vec<u8>) -> (r: Result<Key, CryptoError>)
    requires
        salt@.len() == SALT_LEN,
    ensures
        password@.len() == 0 <==> r == Err::<Key, CryptoError>(CryptoError::InvalidPassword),
        r matches Ok(k) ==> k.bytes@ == derived_key_bytes(password@, salt@) && k.valid(),
        r matches Err(e) ==> e == CryptoError::InvalidPassword || e
            == CryptoError::KeyDerivationFailed,
{
    if password.is_empty() {
        return Err(CryptoError::InvalidPassword);
    }
    match argon2_derive_key(password, salt) {
        Some(bytes) => Ok(Key { bytes }),
        None => Err(CryptoError::KeyDerivationFailed),
    }
}

/// Encrypts and authenticates `data` under `key` with a fresh random nonce,
/// returning `nonce ‖ ciphertext ‖ tag` as one buffer. The buffer decrypts
/// back to `data` under the same key.
pub fn encrypt(data: &[u8], key: &Key) -> (r: Result<Vec<u8>, CryptoError>)
    requires
        key.valid(),
        data@.len() + NONCE_LEN + TAG_LEN <= usize::MAX,
    ensures
        r matches Ok(v) ==> v@.len() == data@.len() + NONCE_LEN + TAG_LEN && decrypted(
            v@,
            key.bytes@,
        ) == Some(data@),
        r is Ok,
{
    let nonce = generate_nonce();
    let mut ciphertext = secretbox_seal(data, &nonce, &key.bytes);
    let ghost nonce_view = nonce@;
    let ghost ct_view = ciphertext@;
    let mut out = nonce;
    out.append(&mut ciphertext);
    proof {
        assert(out@.take(NONCE_LEN as int) =~= nonce_view);
        assert(out@.skip(NONCE_LEN as int) =~= ct_view);
    }
    Ok(out)
}

/// Splits a `nonce ‖ ciphertext ‖ tag` buffer, verifies the tag and
/// decrypts. A buffer shorter than a nonce, a wrong key and tampered data
/// all fail the same way, deliberately: the error does not say which it was.
pub fn decrypt(encrypted_data: &[u8], key: &Key) -> (r: Result<Vec<u8>, CryptoError>)
    requires
        key.valid(),
    ensures
        match r {
            Ok(m) => decrypted(encrypted_data@, key.bytes@) == Some(m@),
            Err(e) => e == CryptoError::DecryptionFailed && decrypted(
                encrypted_data@,
                key.bytes@,
            ) is None,
        },
{
    if encrypted_data.len() < NONCE_LEN {
        return Err(CryptoError::DecryptionFailed);
    }
    let nonce = vstd::slice::slice_to_vec(
        vstd::slice::slice_subrange(encrypted_data, 0, NONCE_LEN),
    );
    let ciphertext = vstd::slice::slice_subrange(encrypted_data, NONCE_LEN, encrypted_data.len());
    proof {
        assert(nonce@ =~= encrypted_data@.take(NONCE_LEN as int));
        assert(ciphertext@ =~= encrypted_data@.skip(NONCE_LEN as int));
    }
    match secretbox_open(ciphertext, &nonce, &key.bytes) {
        Some(m) => Ok(m),
        None => Err(CryptoError::DecryptionFailed),
    }
}

} // verus!
