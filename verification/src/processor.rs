//! The container codec: the full transform between raw payload bytes and the
//! printable transport string, and its exact inverse.
//!
//! Encoding compresses the payload, encrypts the compressed bytes under a
//! key derived from the password and a fresh salt, packs salt and ciphertext
//! into the binary record and encodes the record as printable text. Decoding
//! is the mirror, stage by stage, and classifies every failure by the stage
//! that rejected the input. A wrong password and corrupted ciphertext are
//! deliberately reported as the same failure.

use vstd::prelude::*;

use crate::crypto;
use crate::crypto::{CryptoError, NONCE_LEN, SALT_LEN, TAG_LEN, decrypted, derived_key_bytes};
use crate::record;
use crate::record::{parse_record_spec, record_bytes};

verus! {

/// The compression level every encode call uses: a fixed constant of the
/// format, trading CPU time for output size.
pub const COMPRESSION_LEVEL: i32 = 16;

/// Ceiling on the compressed payload a record may carry, so that the
/// encrypted field always fits its four-byte length prefix and every buffer
/// length stays within the machine's address space.
pub const MAX_COMPRESSED_LEN: usize = 0x7fff_ffff;

/// What compressing a byte sequence at a level yields: a fixed function of
/// the two, the same in every process and on every machine.
pub uninterp spec fn compressed(data: Seq<u8>, level: int) -> Seq<u8>;

/// What decompressing a byte sequence yields: the original bytes for any
/// output of the compressor, nothing for any byte sequence that is not a
/// complete compressed stream. A fixed function of its argument.
pub uninterp spec fn decompressed(data: Seq<u8>) -> Option<Seq<u8>>;

/// What decoding printable text as standard padded base64 yields: the bytes
/// it encodes, or nothing when the text steps outside the alphabet or the
/// padding rules. A fixed function of its argument.
pub uninterp spec fn b64_decoded(s: Seq<char>) -> Option<Seq<u8>>;

#[derive(Debug)]
pub enum QrProcessorError {
    Crypto(CryptoError),
    Compression(String),
    Serialization(String),
    Base64(String),
}

impl QrProcessorError {
    /// A short description of the error, suitable for a user-facing message.
    pub fn message(&self) -> (r: &str) {
        match self {
            QrProcessorError::Crypto(e) => e.message(),
            QrProcessorError::Compression(s) => s.as_str(),
            QrProcessorError::Serialization(s) => s.as_str(),
            QrProcessorError::Base64(s) => s.as_str(),
        }
    }
}

/// The stage at which decoding rejects an input. Decoding is deterministic:
/// a transport string and a password decide the stage, and the stage decides
/// the error that `deserialize` reports.
#[derive(Clone, Copy, Debug, PartialEq, Eq, Structural)]
pub enum DecodeFailure {
    EmptyPassword,
    BadText,
    BadRecord,
    BadSalt,
    BadCipher,
    BadPayload,
}

/// What decoding a transport string under a password yields: the payload, or
/// the first stage that rejects the input. This is the whole decode
/// direction of the format, as a function.
pub open spec fn decode_spec(s: Seq<char>, password: Seq<char>) -> Result<Seq<u8>, DecodeFailure> {
    if password.len() == 0 {
        Err(DecodeFailure::EmptyPassword)
    } else {
        match b64_decoded(s) {
            None => Err(DecodeFailure::BadText),
            Some(packed) => match parse_record_spec(packed) {
                None => Err(DecodeFailure::BadRecord),
                Some(fields) => {
                    let salt = fields.0;
                    let encrypted = fields.1;
                    if salt.len() != SALT_LEN {
                        Err(DecodeFailure::BadSalt)
                    } else {
                        match decrypted(encrypted, derived_key_bytes(password, salt)) {
                            None => Err(DecodeFailure::BadCipher),
                            Some(comp) => match decompressed(comp) {
                                None => Err(DecodeFailure::BadPayload),
                                Some(raw) => Ok(raw),
                            },
                        }
                    }
                },
            },
        }
    }
}

/// Says which error value reports which decode failure stage.
pub open spec fn reports(e: QrProcessorError, f: DecodeFailure) -> bool {
    match f {
        DecodeFailure::EmptyPassword => e == QrProcessorError::Crypto(CryptoError::InvalidPassword),
        DecodeFailure::BadText => e matches QrProcessorError::Base64(_),
        DecodeFailure::BadRecord => e matches QrProcessorError::Serialization(_),
        DecodeFailure::BadSalt => e == QrProcessorError::Crypto(CryptoError::InvalidSalt),
        DecodeFailure::BadCipher => e == QrProcessorError::Crypto(CryptoError::DecryptionFailed),
        DecodeFailure::BadPayload => e matches QrProcessorError::Compression(_),
    }
}

/// Says whether decoding gets as far as deriving a key: only then can the
/// derivation itself fail for reasons outside the input.
pub open spec fn reaches_derivation(d: Result<Seq<u8>, DecodeFailure>) -> bool {
    match d {
        Ok(_) => true,
        Err(f) => f == DecodeFailure::BadCipher || f == DecodeFailure::BadPayload,
    }
}

/// Relies on zstd's stream::encode_all: deterministic for a fixed input and
/// level, and stream::decode_all inverts it; it fails only when the
/// underlying stream cannot complete (a resource failure).
#[verifier::external_body]
fn zstd_compress(data: &[u8], level: i32) -> (r: Result<Vec<u8>, String>)
    ensures
        r matches Ok(v) ==> v@ == compressed(data@, level as int) && decompressed(v@) == Some(
            data@,
        ),
{
    zstd::stream::encode_all(data, level).map_err(|e| e.to_string())
}

/// Relies on zstd's stream::decode_all: deterministic, it recovers the bytes
/// of a complete compressed stream and fails exactly on input that is not
/// one.
#[verifier::external_body]
fn zstd_decompress(data: &[u8]) -> (r: Result<Vec<u8>, String>)
    ensures
        r matches Ok(v) ==> decompressed(data@) == Some(v@),
        r is Err ==> decompressed(data@) is None,
{
    zstd::stream::decode_all(data).map_err(|e| e.to_string())
}

/// Relies on base64's STANDARD engine encode (the padded 64-symbol
/// alphabet): the output is four characters for every started group of three
/// input bytes, and the same engine's decode inverts it.
#[verifier::external_body]
fn base64_encode(data: &Vec<u8>) -> (r: String)
    requires
        4 * ((data@.len() + 2) / 3) <= usize::MAX,
    ensures
        b64_decoded(r@) == Some(data@),
        r@.len() == 4 * ((data@.len() + 2) / 3),
{
    base64::Engine::encode(&base64::engine::general_purpose::STANDARD, data)
}

/// Relies on base64's STANDARD engine decode: deterministic and strict, it
/// fails exactly on text that is not padded standard base64.
#[verifier::external_body]
fn base64_decode(s: &str) -> (r: Result<Vec<u8>, String>)
    ensures
        r matches Ok(v) ==> b64_decoded(s@) == Some(v@),
        r is Err ==> b64_decoded(s@) is None,
{
    base64::Engine::decode(&base64::engine::general_purpose::STANDARD, s).map_err(|e| e.to_string())
}

/// The container codec. Stateless: every call is independent and
/// side-effect-free apart from its result.
pub struct QrDataProcessor;

impl QrDataProcessor {
    /// Encodes a payload under a password: compress, encrypt with a fresh
    /// salt and nonce, pack, and render as printable text. The result
    /// decodes back to the payload under the same password; its length is
    /// decided by the compressed payload alone. The codec itself puts no
    /// ceiling on the output length; callers hold it against their
    /// transport's capacity.
    pub fn serialize(raw_data: &[u8], password: &str) -> (r: Result<String, QrProcessorError>)
        ensures
            password@.len() == 0 <==> r == Err::<String, QrProcessorError>(
                QrProcessorError::Crypto(CryptoError::InvalidPassword),
            ),
            r matches Ok(s) ==> ({
                let comp_len = compressed(raw_data@, COMPRESSION_LEVEL as int).len();
                &&& decode_spec(s@, password@) == Ok::<Seq<u8>, DecodeFailure>(raw_data@)
                &&& comp_len <= MAX_COMPRESSED_LEN
                &&& s@.len() == 4 * ((8 + SALT_LEN + NONCE_LEN + TAG_LEN + comp_len + 2) / 3)
            }),
            r matches Err(e) ==> {
                ||| e == QrProcessorError::Crypto(CryptoError::InvalidPassword)
                ||| e == QrProcessorError::Crypto(CryptoError::KeyDerivationFailed)
                ||| e matches QrProcessorError::Compression(_)
                ||| (e matches QrProcessorError::Serialization(_) && compressed(
                    raw_data@,
                    COMPRESSION_LEVEL as int,
                ).len() > MAX_COMPRESSED_LEN)
            },
    {
        crypto::init();

        let salt = crypto::generate_salt();
        let key = match crypto::derive_key(password, &salt) {
            Ok(k) => k,
            Err(e) => {
                return Err(QrProcessorError::Crypto(e));
            },
        };

        let comp = match zstd_compress(raw_data, COMPRESSION_LEVEL) {
            Ok(v) => v,
            Err(m) => {
                return Err(QrProcessorError::Compression(m));
            },
        };
        if comp.len() > MAX_COMPRESSED_LEN {
            return Err(
                QrProcessorError::Serialization("payload too large for the record format".to_owned()),
            );
        }

        let encrypted = match crypto::encrypt(comp.as_slice(), &key) {
            Ok(v) => v,
            Err(_) => {
                return Err(QrProcessorError::Crypto(CryptoError::EncryptionFailed));
            },
        };

        let packed = record::pack_record(&salt, &encrypted);
        proof {
            record::lemma_record_round_trip(salt@, encrypted@);
        }
        let text = base64_encode(&packed);
        Ok(text)
    }

    /// Decodes a transport string under a password: the exact mirror of
    /// `serialize`, stage by stage. The result is the payload the string
    /// encodes, or the error of the first stage that rejects the input; only
    /// the key derivation itself may fail for reasons outside the input, and
    /// only once decoding has got that far.
    pub fn deserialize(input_string: &str, password: &str) -> (r: Result<Vec<u8>, QrProcessorError>)
        ensures
            ({
                let d = decode_spec(input_string@, password@);
                match r {
                    Ok(v) => d == Ok::<Seq<u8>, DecodeFailure>(v@),
                    Err(e) => (d matches Err(f) && reports(e, f)) || (e == QrProcessorError::Crypto(
                        CryptoError::KeyDerivationFailed,
                    ) && reaches_derivation(d)),
                }
            }),
            decode_spec(input_string@, password@) matches Ok(v) ==> (r matches Ok(w) && w@ == v)
                || r == Err::<Vec<u8>, QrProcessorError>(
                QrProcessorError::Crypto(CryptoError::KeyDerivationFailed),
            ),
    {
        crypto::init();

        if password.is_empty() {
            return Err(QrProcessorError::Crypto(CryptoError::InvalidPassword));
        }

        let packed = match base64_decode(input_string) {
            Ok(v) => v,
            Err(m) => {
                return Err(QrProcessorError::Base64(m));
            },
        };

        let (salt, encrypted) = match record::parse_record(packed.as_slice()) {
            Some(fields) => fields,
            None => {
                return Err(
                    QrProcessorError::Serialization("malformed container record".to_owned()),
                );
            },
        };

        if salt.len() != SALT_LEN {
            return Err(QrProcessorError::Crypto(CryptoError::InvalidSalt));
        }

        let key = match crypto::derive_key(password, &salt) {
            Ok(k) => k,
            Err(e) => {
                return Err(QrProcessorError::Crypto(e));
            },
        };

        let comp = match crypto::decrypt(encrypted.as_slice(), &key) {
            Ok(v) => v,
            Err(e) => {
                return Err(QrProcessorError::Crypto(e));
            },
        };

        let raw = match zstd_decompress(comp.as_slice()) {
            Ok(v) => v,
            Err(m) => {
                return Err(QrProcessorError::Compression(m));
            },
        };

        Ok(raw)
    }
}

} // verus!
