use node_host::hex_utils::hex_str;
use node_host::utils::{hours_since_epoch, macaroon_from_hex_str, macaroon_with_session_from_hex_str};

#[test]
fn token_hex_round_trip_keeps_the_scope() {
    macaroon::initialize().unwrap();
    let key = macaroon::MacaroonKey::generate(b"test-root-key");
    let token = macaroon::Macaroon::create(
        Some(String::from("node-host")),
        &key,
        "tenant-node-identity".into(),
    )
    .unwrap();
    let serialized = token.serialize(macaroon::Format::V2).unwrap();
    let hex = hex_str(serialized.as_bytes());

    let (decoded, session) = macaroon_with_session_from_hex_str(&hex).unwrap();
    assert_eq!(session.identifier, b"tenant-node-identity".to_vec());
    assert_eq!(decoded.identifier().0, token.identifier().0);
}

#[test]
fn bad_hex_is_a_decode_error() {
    macaroon::initialize().unwrap();
    assert!(macaroon_from_hex_str("not-hex-at-all").is_err());
    assert!(macaroon_from_hex_str("abc").is_err());
}

#[test]
fn empty_token_is_a_decode_error() {
    macaroon::initialize().unwrap();
    assert!(macaroon_from_hex_str("").is_err());
}

#[test]
fn valid_hex_that_is_no_credential_is_a_decode_error() {
    macaroon::initialize().unwrap();
    assert!(macaroon_with_session_from_hex_str("00ff00ff").is_err());
}

#[test]
fn clock_reports_hours() {
    // Well over 400 000 hours stand between the Unix epoch and any clock
    // this test can run on.
    let hours = hours_since_epoch().unwrap();
    assert!(hours > 400_000);
    assert!(hours <= u64::MAX / 3600);
}
