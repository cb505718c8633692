use settlement_engine::clock::{current_timestamp, seconds_or_zero};
use settlement_engine::error::EngineError;
use settlement_engine::hex::{hex_to_u128_or_zero, hex_to_u64_or_zero, parse_hex_u128};
use settlement_engine::text::{eq_ignore_ascii_case, strip_hex_prefix_start, trim_hex_prefixes_start};

#[test]
fn hex_reads_like_from_str_radix() {
    assert_eq!(parse_hex_u128(b"ff"), Some(255));
    assert_eq!(parse_hex_u128(b"FF"), Some(255));
    assert_eq!(parse_hex_u128(b"+1a"), Some(26));
    assert_eq!(parse_hex_u128(b"+"), None);
    assert_eq!(parse_hex_u128(b""), None);
    assert_eq!(parse_hex_u128(b"-1"), None);
    assert_eq!(parse_hex_u128(b"0x1"), None);
    assert_eq!(parse_hex_u128(b"ffffffffffffffffffffffffffffffff"), Some(u128::MAX));
    assert_eq!(parse_hex_u128(b"100000000000000000000000000000000"), None);
    for s in ["0", "1f", "+7", "deadBEEF", "zz", "", "+", "12 "] {
        assert_eq!(parse_hex_u128(s.as_bytes()), u128::from_str_radix(s, 16).ok());
        assert_eq!(hex_to_u64_or_zero(s.as_bytes()), u64::from_str_radix(s, 16).unwrap_or(0));
    }
}

#[test]
fn hex_or_zero_defaults_to_zero() {
    assert_eq!(hex_to_u128_or_zero(b"de0b6b3a7640000"), 1_000_000_000_000_000_000);
    assert_eq!(hex_to_u128_or_zero(b"g"), 0);
    assert_eq!(hex_to_u64_or_zero(b"1"), 1);
    assert_eq!(hex_to_u64_or_zero(b"10000000000000000"), 0);
    assert_eq!(hex_to_u64_or_zero(b"ffffffffffffffff"), u64::MAX);
}

#[test]
fn ascii_case_insensitive_comparison() {
    assert!(eq_ignore_ascii_case(b"0xAbC", b"0XaBc"));
    assert!(!eq_ignore_ascii_case(b"0xabc", b"0xabd"));
    assert!(!eq_ignore_ascii_case(b"abc", b"abcd"));
    assert!(!eq_ignore_ascii_case("é".as_bytes(), "É".as_bytes()));
}

#[test]
fn hex_prefixes_strip_once_or_trim_all() {
    assert_eq!(strip_hex_prefix_start(b"0x0x12"), 2);
    assert_eq!(trim_hex_prefixes_start(b"0x0x12"), 4);
    assert_eq!(strip_hex_prefix_start(b"12"), 0);
    assert_eq!(trim_hex_prefixes_start(b"0X12"), 0);
    assert_eq!(trim_hex_prefixes_start(b"0x"), 2);
}

#[test]
fn engine_error_messages() {
    assert_eq!(
        EngineError::ConfigError("missing url".to_string()).message(),
        "Configuration error: missing url"
    );
    assert_eq!(EngineError::RpcError("timeout".to_string()).message(), "RPC error: timeout");
    let status = tonic::Status::not_found("no such invoice");
    let text = EngineError::GrpcError(status.clone()).message();
    assert_eq!(text, format!("gRPC status error: {}", status));
}

#[test]
fn timestamp_is_after_2020() {
    assert!(current_timestamp() > 1_577_836_800);
}

#[test]
fn timestamps_follow_the_clock() {
    assert_eq!(seconds_or_zero(Some(1_700_000_000)), 1_700_000_000);
    assert_eq!(seconds_or_zero(None), 0);
    assert!(seconds_or_zero(None) <= seconds_or_zero(Some(0)));
    assert!(seconds_or_zero(Some(5)) <= seconds_or_zero(Some(6)));
}
