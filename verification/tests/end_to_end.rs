use price_oracle::aggregate::FALLBACK_USD_MICRO;
use price_oracle::fetch::fetch_step;
use price_oracle::fetch::FetchDecision;
use price_oracle::oracle::build_signed_record;
use price_oracle::oracle::check_response;
use price_oracle::oracle::ClientError;
use price_oracle::sig::KeyPair;

/// Dollars, as a float quote, to micro-dollars truncated toward zero.
fn to_micro(dollars: f64) -> u64 {
    (dollars * 1_000_000.0) as u64
}

#[test]
fn two_source_cycle_reaches_the_client() {
    let kp = KeyPair::generate();
    let pk = kp.public_key_bytes();

    // Server side: source A returns 50000.00, source B returns 50010.00.
    let record = build_signed_record(&kp, Some(to_micro(50000.00)), Some(to_micro(50010.00)), 1_700_000_000);
    assert_eq!(record.usd_micro, 50_005_000_000);
    assert_eq!(record.source_bitmap, 0b11);
    let wire = record.encode_full();
    assert_eq!(wire.len(), 92);

    // Client side: decode, verify, report.
    let price = check_response(&wire, &pk).expect("a well-signed response must be accepted");
    assert_eq!(price.usd_micro, 50_005_000_000);
    assert_eq!(price.source_bitmap, 0b11);
    assert_eq!(price.timestamp_unix, 1_700_000_000);
    let report = format!(
        "${:.2} ({} sources)",
        price.usd_micro as f64 / 1_000_000.0,
        price.source_bitmap.count_ones()
    );
    assert_eq!(report, "$50005.00 (2 sources)");
}

#[test]
fn fallback_cycle_still_verifies() {
    let kp = KeyPair::generate();
    let pk = kp.public_key_bytes();

    // Both sources failed: the record still signs and verifies.
    let record = build_signed_record(&kp, None, None, 1_700_000_001);
    assert_eq!(record.source_bitmap, 0b00);
    assert_eq!(record.usd_micro, FALLBACK_USD_MICRO);
    let wire = record.encode_full();

    let price = check_response(&wire, &pk).expect("the fallback record is signed like any other");
    assert_eq!(price.usd_micro, FALLBACK_USD_MICRO);
    assert_eq!(price.source_bitmap, 0b00);
    assert_eq!(price.source_bitmap.count_ones(), 0);
}

#[test]
fn truncated_response_is_malformed() {
    let kp = KeyPair::generate();
    let pk = kp.public_key_bytes();
    let wire = build_signed_record(&kp, Some(5), None, 7).encode_full();
    assert_eq!(check_response(&wire[..wire.len() - 1], &pk), Err(ClientError::Malformed));
    assert_eq!(check_response(&[], &pk), Err(ClientError::Malformed));
    let mut long = wire.clone();
    long.push(0);
    assert_eq!(check_response(&long, &pk), Err(ClientError::Malformed));
}

#[test]
fn response_signed_by_another_server_is_rejected() {
    let kp = KeyPair::generate();
    let impostor = KeyPair::generate();
    let wire = build_signed_record(&impostor, Some(5), Some(6), 7).encode_full();
    assert_eq!(check_response(&wire, &kp.public_key_bytes()), Err(ClientError::BadSignature));
}

#[test]
fn timeout_is_distinct_from_bad_answers() {
    // The transport reports a missing answer as its own error, never as a
    // decode or signature failure.
    assert_ne!(ClientError::Timeout, ClientError::Malformed);
    assert_ne!(ClientError::Timeout, ClientError::BadSignature);
}

#[test]
fn fetch_retries_until_budget_is_spent() {
    assert_eq!(fetch_step(1, Some(42)), FetchDecision::Accept(42));
    assert_eq!(fetch_step(3, Some(7)), FetchDecision::Accept(7));
    assert_eq!(fetch_step(1, None), FetchDecision::RetryAfterPause);
    assert_eq!(fetch_step(2, None), FetchDecision::RetryAfterPause);
    assert_eq!(fetch_step(3, None), FetchDecision::GiveUp);
}
