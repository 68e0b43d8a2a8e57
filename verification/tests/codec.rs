use btc_rest_gateway::hex::encode_digest;
use btc_rest_gateway::hex::parse_digest;
use btc_rest_gateway::hex::Digest;
use btc_rest_gateway::num::parse_u32_str;
use btc_rest_gateway::num::parse_u64_str;

const GENESIS: &str = "000000000019d6689c085ae165831e934ff763ae46a2a6c172b3f1b60a8ce26f";

#[test]
fn digest_round_trip_lowercase() {
    let d = parse_digest(GENESIS).expect("valid digest");
    assert_eq!(encode_digest(&d), GENESIS);
}

#[test]
fn digest_uppercase_accepted_and_normalized() {
    let upper = GENESIS.to_uppercase();
    let d = parse_digest(&upper).expect("valid digest");
    assert_eq!(encode_digest(&d), GENESIS);
}

#[test]
fn digest_known_bytes() {
    let s = "000102030405060708090a0b0c0d0e0f101112131415161718191a1b1c1d1e1f";
    let d = parse_digest(s).expect("valid digest");
    let want: Vec<u8> = (0u8..32).collect();
    assert_eq!(d.bytes, want);
}

#[test]
fn digest_rejects_wrong_length() {
    assert!(parse_digest("").is_none());
    assert!(parse_digest("abc").is_none());
    assert!(parse_digest(&GENESIS[..63]).is_none());
    let long = format!("{}0", GENESIS);
    assert!(parse_digest(&long).is_none());
}

#[test]
fn digest_rejects_non_hex() {
    let mut s = String::from(GENESIS);
    s.replace_range(10..11, "z");
    assert!(parse_digest(&s).is_none());
    assert!(parse_digest(&"g".repeat(64)).is_none());
}

#[test]
fn encode_zero_digest() {
    let d = Digest { bytes: vec![0u8; 32] };
    assert_eq!(encode_digest(&d), "0".repeat(64));
}

#[test]
fn height_parses_exactly() {
    assert_eq!(parse_u64_str("0"), Some(0));
    assert_eq!(parse_u64_str("700000"), Some(700000));
    assert_eq!(parse_u64_str("007"), Some(7));
    assert_eq!(parse_u64_str("18446744073709551615"), Some(u64::MAX));
}

#[test]
fn height_rejects_bad_input() {
    assert_eq!(parse_u64_str(""), None);
    assert_eq!(parse_u64_str("+5"), None);
    assert_eq!(parse_u64_str("-5"), None);
    assert_eq!(parse_u64_str("12a"), None);
    assert_eq!(parse_u64_str(" 1"), None);
    assert_eq!(parse_u64_str("18446744073709551616"), None);
}

#[test]
fn vout_parses_exactly() {
    assert_eq!(parse_u32_str("0"), Some(0));
    assert_eq!(parse_u32_str("4294967295"), Some(u32::MAX));
    assert_eq!(parse_u32_str("4294967296"), None);
    assert_eq!(parse_u32_str("x"), None);
}
