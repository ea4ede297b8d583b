use base64::Engine;
use qr_exchange::processor::QrDataProcessor;

fn valid_record(password: &str) -> Vec<u8> {
    let payload = b"a short but real payload".to_vec();
    let text = QrDataProcessor::serialize(&payload, password).unwrap();
    base64::engine::general_purpose::STANDARD.decode(text).unwrap()
}

fn deserialize_flipped(record: &[u8], position: usize, password: &str) -> bool {
    let mut corrupted = record.to_vec();
    corrupted[position] ^= 0x01;
    let text = base64::engine::general_purpose::STANDARD.encode(&corrupted);
    QrDataProcessor::deserialize(&text, password).is_err()
}

// Record layout: 4 bytes salt length, 16 bytes salt, 4 bytes field length,
// then nonce, ciphertext and tag. A flipped byte anywhere must make decoding
// fail; it must never succeed with wrong output.

#[test]
fn corrupting_the_structure_fails() {
    let record = valid_record("stay-whole");
    // High and low byte of the first length prefix, and the second prefix.
    assert!(deserialize_flipped(&record, 0, "stay-whole"));
    assert!(deserialize_flipped(&record, 3, "stay-whole"));
    assert!(deserialize_flipped(&record, 20, "stay-whole"));
}

#[test]
fn corrupting_the_salt_fails() {
    let record = valid_record("stay-whole");
    assert!(deserialize_flipped(&record, 4, "stay-whole"));
    assert!(deserialize_flipped(&record, 19, "stay-whole"));
}

#[test]
fn corrupting_nonce_ciphertext_or_tag_fails() {
    let record = valid_record("stay-whole");
    // First nonce byte, first ciphertext byte, last tag byte.
    assert!(deserialize_flipped(&record, 24, "stay-whole"));
    assert!(deserialize_flipped(&record, 48, "stay-whole"));
    assert!(deserialize_flipped(&record, record.len() - 1, "stay-whole"));
}
