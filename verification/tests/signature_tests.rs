use hmac::Mac;
use signature_utils::DEFAULT_TOLERANCE_MS;
use signature_utils::generate_signature;
use signature_utils::generate_signature_at;
use signature_utils::validate_signature;
use signature_utils::validate_signature_at;

fn test_body_json() -> String {
    let mut map = serde_json::Map::new();
    map.insert(
        "test".to_string(),
        serde_json::Value::String("data".to_string()),
    );
    map.insert(
        "number".to_string(),
        serde_json::Value::Number(serde_json::Number::from(123)),
    );
    serde_json::to_string(&serde_json::Value::Object(map)).unwrap()
}

#[test]
fn test_generate_and_validate_signature() {
    let body = test_body_json();
    let integration_id = "test-integration";
    let secret_key = "test-secret-key";

    let signature = generate_signature(&body, integration_id, secret_key).unwrap();
    let is_valid = validate_signature(&signature, &body, integration_id, secret_key, None);

    assert!(is_valid);
}

#[test]
fn test_round_trip_scenario() {
    let body = test_body_json();
    let token = generate_signature(&body, "test-integration", "test-secret-key").unwrap();
    assert!(validate_signature(
        &token,
        &body,
        "test-integration",
        "test-secret-key",
        None
    ));
    assert!(!validate_signature(
        &token,
        &body,
        "other-integration",
        "test-secret-key",
        None
    ));
}

#[test]
fn test_token_matches_direct_hmac_computation() {
    let body = "{\"a\":1}";
    let integration_id = "partner-7";
    let secret_key = "k-secret";
    let ts: u64 = 1700000000000;

    let token = generate_signature_at(body, integration_id, secret_key, ts).unwrap();

    let mut mac = hmac::Hmac::<sha2::Sha256>::new_from_slice(secret_key.as_bytes()).unwrap();
    mac.update(format!("{}{}", body, ts).as_bytes());
    let expected_hex = hex::encode(mac.finalize().into_bytes());
    let expected = format!("{}.{}.{}", integration_id, ts, expected_hex);

    assert_eq!(token, expected);
}

#[test]
fn test_token_shape() {
    let token = generate_signature_at("{}", "id", "key", 42).unwrap();
    let parts: Vec<&str> = token.split('.').collect();
    assert_eq!(parts.len(), 3);
    assert_eq!(parts[0], "id");
    assert_eq!(parts[1], "42");
    assert_eq!(parts[2].len(), 64);
    assert!(parts[2]
        .chars()
        .all(|c| c.is_ascii_hexdigit() && !c.is_ascii_uppercase()));
}

#[test]
fn test_validate_recomputes_against_embedded_timestamp() {
    let body = test_body_json();
    let ts: u64 = 1700000000000;
    let token = generate_signature_at(&body, "id", "key", ts).unwrap();

    // An old token still within tolerance verifies: the digest is recomputed
    // against the embedded timestamp, not the clock.
    assert!(validate_signature_at(
        &token,
        &body,
        "id",
        "key",
        None,
        ts + 200_000
    ));
    assert!(validate_signature_at(
        &token,
        &body,
        "id",
        "key",
        None,
        ts - 200_000
    ));
}

#[test]
fn test_wrong_embedded_timestamp_fails() {
    let body = test_body_json();
    let ts: u64 = 1700000000000;
    let token = generate_signature_at(&body, "id", "key", ts).unwrap();
    let digest = token.rsplit('.').next().unwrap();

    // Same digest, different embedded timestamp: the digest no longer matches.
    let forged = format!("id.{}.{}", ts + 1, digest);
    assert!(!validate_signature_at(&forged, &body, "id", "key", None, ts));
    assert!(!validate_signature_at(
        &forged,
        &body,
        "id",
        "key",
        None,
        ts + 1
    ));
}

#[test]
fn test_tamper_digest_fails() {
    let body = test_body_json();
    let ts: u64 = 1700000000000;
    let token = generate_signature_at(&body, "id", "key", ts).unwrap();

    let digest_start = token.len() - 64;
    for i in [digest_start, digest_start + 31, token.len() - 1] {
        let mut chars: Vec<char> = token.chars().collect();
        chars[i] = if chars[i] == '0' { '1' } else { '0' };
        let tampered: String = chars.into_iter().collect();
        assert!(!validate_signature_at(
            &tampered, &body, "id", "key", None, ts
        ));
    }
}

#[test]
fn test_identity_binding() {
    let body = test_body_json();
    let ts: u64 = 1700000000000;
    let token = generate_signature_at(&body, "A", "shared-secret", ts).unwrap();
    assert!(validate_signature_at(
        &token,
        &body,
        "A",
        "shared-secret",
        None,
        ts
    ));
    assert!(!validate_signature_at(
        &token,
        &body,
        "B",
        "shared-secret",
        None,
        ts
    ));
}

#[test]
fn test_wrong_secret_fails() {
    let body = test_body_json();
    let ts: u64 = 1700000000000;
    let token = generate_signature_at(&body, "id", "right-key", ts).unwrap();
    assert!(!validate_signature_at(
        &token,
        &body,
        "id",
        "wrong-key",
        None,
        ts
    ));
}

#[test]
fn test_wrong_body_fails() {
    let ts: u64 = 1700000000000;
    let token = generate_signature_at("{\"a\":1}", "id", "key", ts).unwrap();
    assert!(!validate_signature_at(
        &token,
        "{\"a\":2}",
        "id",
        "key",
        None,
        ts
    ));
}

#[test]
fn test_expiry_boundary() {
    let body = "{}";
    let ts: u64 = 1700000000000;
    let token = generate_signature_at(body, "id", "key", ts).unwrap();
    let tol: u64 = 1000;

    // Exactly at the tolerance: accepted, in both directions.
    assert!(validate_signature_at(
        &token,
        body,
        "id",
        "key",
        Some(tol),
        ts + tol
    ));
    assert!(validate_signature_at(
        &token,
        body,
        "id",
        "key",
        Some(tol),
        ts - tol
    ));
    // One millisecond beyond: rejected, in both directions.
    assert!(!validate_signature_at(
        &token,
        body,
        "id",
        "key",
        Some(tol),
        ts + tol + 1
    ));
    assert!(!validate_signature_at(
        &token,
        body,
        "id",
        "key",
        Some(tol),
        ts - tol - 1
    ));
}

#[test]
fn test_default_tolerance_is_five_minutes() {
    assert_eq!(DEFAULT_TOLERANCE_MS, 300_000);
    let body = "{}";
    let ts: u64 = 1700000000000;
    let token = generate_signature_at(body, "id", "key", ts).unwrap();
    assert!(validate_signature_at(
        &token,
        body,
        "id",
        "key",
        None,
        ts + 300_000
    ));
    assert!(!validate_signature_at(
        &token,
        body,
        "id",
        "key",
        None,
        ts + 300_001
    ));
}

#[test]
fn test_malformed_signatures_rejected() {
    let body = "{}";
    let now: u64 = 1700000000000;
    let cases = [
        "",
        ".",
        "..",
        "...",
        "id",
        "id.1700000000000",
        "id.1700000000000.deadbeef.extra",
        ".1700000000000.deadbeef",
        "id..deadbeef",
        "id.1700000000000.",
        "id.17000x0000000.deadbeef",
        "id. 1700000000000.deadbeef",
        "id.+1700000000000.deadbeef",
        "id.-1700000000000.deadbeef",
        "id.18446744073709551616.deadbeef",
        "id.99999999999999999999999999.deadbeef",
    ];
    for sig in cases {
        assert!(
            !validate_signature_at(sig, body, "id", "key", None, now),
            "accepted malformed signature {:?}",
            sig
        );
    }
}

#[test]
fn test_timestamp_overflow_boundary() {
    let body = "{}";
    // u64::MAX itself parses; validation then fails only on freshness/digest.
    let token = generate_signature_at(body, "id", "key", u64::MAX).unwrap();
    assert!(validate_signature_at(
        &token,
        body,
        "id",
        "key",
        None,
        u64::MAX
    ));
    assert!(!validate_signature_at(
        &token,
        body,
        "id",
        "key",
        Some(0),
        u64::MAX - 1
    ));
}

#[test]
fn test_zero_timestamp() {
    let body = "{}";
    let token = generate_signature_at(body, "id", "key", 0).unwrap();
    assert!(token.starts_with("id.0."));
    assert!(validate_signature_at(&token, body, "id", "key", None, 0));
}

#[test]
fn test_clock_based_generation_is_fresh() {
    let body = test_body_json();
    let token = generate_signature(&body, "id", "key").unwrap();
    // The clock moved by far less than the tolerance between the two calls.
    assert!(validate_signature(&token, &body, "id", "key", None));
}
