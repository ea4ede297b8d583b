use qr_exchange::crypto::CryptoError;
use qr_exchange::processor::{QrDataProcessor, QrProcessorError};
use qr_exchange::{fits_barcode_capacity, QR_CAPACITY_LIMIT};

fn sample_payload() -> Vec<u8> {
    let mut v = Vec::new();
    let mut i: u32 = 0;
    while i < 256 {
        v.push(i as u8);
        i += 1;
    }
    v
}

/// Pseudo-random bytes, deterministic, effectively incompressible.
fn noise(len: usize) -> Vec<u8> {
    let mut v = Vec::with_capacity(len);
    let mut state: u64 = 0x2545F4914F6CDD1D;
    for _ in 0..len {
        state = state.wrapping_mul(6364136223846793005).wrapping_add(1442695040888963407);
        v.push((state >> 33) as u8);
    }
    v
}

#[test]
fn round_trip_scenario() {
    let payload = sample_payload();
    assert_eq!(payload.len(), 256);
    let text = QrDataProcessor::serialize(&payload, "correct-horse").unwrap();
    assert!(text.is_ascii());
    assert!(text.len() % 4 == 0);
    assert!(text.len() < QR_CAPACITY_LIMIT);
    let back = QrDataProcessor::deserialize(&text, "correct-horse").unwrap();
    assert_eq!(back, payload);
}

#[test]
fn wrong_password_fails_as_decryption_failure() {
    let payload = sample_payload();
    let text = QrDataProcessor::serialize(&payload, "correct-horse").unwrap();
    let err = QrDataProcessor::deserialize(&text, "wrong-horse").unwrap_err();
    assert!(matches!(err, QrProcessorError::Crypto(CryptoError::DecryptionFailed)));
}

#[test]
fn encode_is_randomized_decode_is_not() {
    let payload = b"the same payload twice".to_vec();
    let first = QrDataProcessor::serialize(&payload, "pass-phrase").unwrap();
    let second = QrDataProcessor::serialize(&payload, "pass-phrase").unwrap();
    assert_ne!(first, second);
    assert_eq!(QrDataProcessor::deserialize(&first, "pass-phrase").unwrap(), payload);
    assert_eq!(QrDataProcessor::deserialize(&second, "pass-phrase").unwrap(), payload);
}

#[test]
fn empty_password_rejected_everywhere() {
    let err = QrDataProcessor::serialize(b"some bytes", "").unwrap_err();
    assert!(matches!(err, QrProcessorError::Crypto(CryptoError::InvalidPassword)));

    let err = QrDataProcessor::deserialize("whatever, even invalid base64 §§", "").unwrap_err();
    assert!(matches!(err, QrProcessorError::Crypto(CryptoError::InvalidPassword)));
}

#[test]
fn size_policy_is_the_callers_not_the_codecs() {
    let payload = noise(3000);
    let text = QrDataProcessor::serialize(&payload, "ten-chars!").unwrap();
    assert!(text.len() >= QR_CAPACITY_LIMIT);
    assert!(!fits_barcode_capacity(text.len()));
}

#[test]
fn capacity_check_boundary() {
    assert!(fits_barcode_capacity(0));
    assert!(fits_barcode_capacity(2952));
    assert!(!fits_barcode_capacity(2953));
    assert!(!fits_barcode_capacity(4000));
}
