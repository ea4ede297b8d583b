use base64::Engine;
use qr_exchange::crypto::{self, CryptoError};
use qr_exchange::processor::{QrDataProcessor, QrProcessorError};
use qr_exchange::record::{pack_record, parse_record};

fn to_text(record: &[u8]) -> String {
    base64::engine::general_purpose::STANDARD.encode(record)
}

#[test]
fn pack_record_exact_bytes() {
    let salt = vec![0xAA, 0xBB];
    let encrypted = vec![1, 2, 3];
    let packed = pack_record(&salt, &encrypted);
    assert_eq!(packed, vec![0, 0, 0, 2, 0xAA, 0xBB, 0, 0, 0, 3, 1, 2, 3]);
}

#[test]
fn parse_record_inverts_pack() {
    let salt = vec![7u8; 16];
    let encrypted = vec![9u8; 40];
    let packed = pack_record(&salt, &encrypted);
    let (s, e) = parse_record(&packed).unwrap();
    assert_eq!(s, salt);
    assert_eq!(e, encrypted);
}

#[test]
fn parse_record_rejects_malformed_buffers() {
    // Too short for a length prefix.
    assert!(parse_record(&[0, 0, 0]).is_none());
    // Field length runs past the end.
    assert!(parse_record(&[0, 0, 0, 5, 1, 2]).is_none());
    // Trailing garbage after the second field.
    let mut packed = pack_record(&vec![1, 2], &vec![3, 4]);
    packed.push(0);
    assert!(parse_record(&packed).is_none());
    // A valid buffer, for contrast.
    packed.pop();
    assert!(parse_record(&packed).is_some());
}

#[test]
fn text_outside_the_alphabet_is_a_base64_error() {
    let err = QrDataProcessor::deserialize("!!! not base64 !!!", "pw").unwrap_err();
    assert!(matches!(err, QrProcessorError::Base64(_)));
}

#[test]
fn garbage_record_is_a_serialization_error() {
    let text = to_text(&[1, 2, 3]);
    let err = QrDataProcessor::deserialize(&text, "pw").unwrap_err();
    assert!(matches!(err, QrProcessorError::Serialization(_)));
}

#[test]
fn wrong_salt_length_is_invalid_salt() {
    let record = pack_record(&vec![0u8; 5], &vec![0u8; 64]);
    let err = QrDataProcessor::deserialize(&to_text(&record), "pw").unwrap_err();
    assert!(matches!(err, QrProcessorError::Crypto(CryptoError::InvalidSalt)));
}

#[test]
fn encrypted_field_shorter_than_a_nonce_is_a_decryption_failure() {
    let record = pack_record(&vec![0u8; 16], &vec![0u8; 10]);
    let err = QrDataProcessor::deserialize(&to_text(&record), "pw").unwrap_err();
    assert!(matches!(err, QrProcessorError::Crypto(CryptoError::DecryptionFailed)));
}

#[test]
fn authentic_ciphertext_of_uncompressed_bytes_is_a_compression_error() {
    crypto::init();
    let salt = crypto::generate_salt();
    let key = crypto::derive_key("pw", &salt).unwrap();
    // Encrypt bytes that are not a compressed stream, so decoding passes
    // authentication and then fails at the decompression stage.
    let encrypted = crypto::encrypt(b"not a compressed stream", &key).unwrap();
    let record = pack_record(&salt, &encrypted);
    let err = QrDataProcessor::deserialize(&to_text(&record), "pw").unwrap_err();
    assert!(matches!(err, QrProcessorError::Compression(_)));
}
