use price_oracle::oracle::build_signed_record;
use price_oracle::oracle::check_response;
use price_oracle::oracle::ClientError;
use price_oracle::record::encode_for_signing;
use price_oracle::record::SIGNED_LEN;
use price_oracle::sig::verify;
use price_oracle::sig::KeyPair;

#[test]
fn sign_verify_round_trip() {
    let kp = KeyPair::generate();
    let pk = kp.public_key_bytes();
    let payload = encode_for_signing(50_005_000_000, 250_000_000_000_000, 0b11, 1_700_000_000);
    let sig = kp.sign(&payload);
    assert_eq!(sig.len(), 64);
    assert!(verify(&pk, &payload, &sig));
}

#[test]
fn signing_is_deterministic() {
    let kp = KeyPair::generate();
    let payload = encode_for_signing(1, 2, 3, 4);
    assert_eq!(kp.sign(&payload), kp.sign(&payload));
}

#[test]
fn verify_rejects_wrong_key() {
    let signer = KeyPair::generate();
    let other = KeyPair::generate();
    let payload = encode_for_signing(1, 2, 3, 4);
    let sig = signer.sign(&payload);
    assert!(!verify(&other.public_key_bytes(), &payload, &sig));
}

#[test]
fn verify_rejects_wrong_message() {
    let kp = KeyPair::generate();
    let sig = kp.sign(&encode_for_signing(1, 2, 3, 4));
    assert!(!verify(&kp.public_key_bytes(), &encode_for_signing(1, 2, 3, 5), &sig));
}

#[test]
fn verify_rejects_malformed_inputs() {
    let kp = KeyPair::generate();
    let payload = encode_for_signing(1, 2, 3, 4);
    let sig = kp.sign(&payload);
    assert!(!verify(&kp.public_key_bytes()[..31], &payload, &sig));
    assert!(!verify(&kp.public_key_bytes(), &payload, &sig[..63]));
    assert!(!verify(&[], &payload, &sig));
}

#[test]
fn any_single_bit_flip_breaks_verification() {
    let kp = KeyPair::generate();
    let pk = kp.public_key_bytes();
    let record = build_signed_record(&kp, Some(50_000_000_000), Some(50_010_000_000), 1_700_000_000);
    let wire = record.encode_full();
    assert!(check_response(&wire, &pk).is_ok());
    for byte_index in 0..wire.len() {
        for bit in 0..8 {
            let mut tampered = wire.clone();
            tampered[byte_index] ^= 1 << bit;
            let result = check_response(&tampered, &pk);
            assert_eq!(
                result,
                Err(ClientError::BadSignature),
                "flip of bit {} in byte {} went unnoticed",
                bit,
                byte_index
            );
        }
    }
}

#[test]
fn signed_bytes_exclude_signature() {
    // The record's signature is exactly a signature over the 28 encoded field
    // bytes, so the signature never covers itself.
    assert_eq!(SIGNED_LEN, 28);
    let kp = KeyPair::generate();
    let a = build_signed_record(&kp, Some(10), None, 99);
    let payload = encode_for_signing(a.usd_micro, a.volume24h_sats, a.source_bitmap, a.timestamp_unix);
    assert_eq!(a.signature, kp.sign(&payload));
}
