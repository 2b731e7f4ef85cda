use rpc_checker::codec::json_escape;
use rpc_checker::codec::parse_dec_u64;
use rpc_checker::codec::parse_eth_quantity;
use rpc_checker::codec::parse_hex_u64;
use rpc_checker::codec::str_eq;
use rpc_checker::codec::u64_to_dec;
use rpc_checker::codec::u64_to_hex;

#[test]
fn dec_render_digits() {
    assert_eq!(u64_to_dec(0), "0");
    assert_eq!(u64_to_dec(7), "7");
    assert_eq!(u64_to_dec(42), "42");
    assert_eq!(u64_to_dec(305419896), "305419896");
    assert_eq!(u64_to_dec(u64::MAX), "18446744073709551615");
}

#[test]
fn hex_render_digits() {
    assert_eq!(u64_to_hex(0), "0");
    assert_eq!(u64_to_hex(10), "a");
    assert_eq!(u64_to_hex(255), "ff");
    assert_eq!(u64_to_hex(305419896), "12345678");
    assert_eq!(u64_to_hex(u64::MAX), "ffffffffffffffff");
}

#[test]
fn dec_parse_plain() {
    assert_eq!(parse_dec_u64("100"), Some(100));
    assert_eq!(parse_dec_u64("0"), Some(0));
    assert_eq!(parse_dec_u64("18446744073709551615"), Some(u64::MAX));
}

#[test]
fn dec_parse_rejects() {
    assert_eq!(parse_dec_u64(""), None);
    assert_eq!(parse_dec_u64("12a"), None);
    assert_eq!(parse_dec_u64("-1"), None);
    assert_eq!(parse_dec_u64(" 1"), None);
    assert_eq!(parse_dec_u64("18446744073709551616"), None);
}

#[test]
fn hex_parse_plain() {
    assert_eq!(parse_hex_u64("ff"), Some(255));
    assert_eq!(parse_hex_u64("FF"), Some(255));
    assert_eq!(parse_hex_u64("0"), Some(0));
    assert_eq!(parse_hex_u64("ffffffffffffffff"), Some(u64::MAX));
}

#[test]
fn hex_parse_rejects() {
    assert_eq!(parse_hex_u64(""), None);
    assert_eq!(parse_hex_u64("g"), None);
    assert_eq!(parse_hex_u64("10000000000000000"), None);
}

#[test]
fn eth_quantity_decodes() {
    assert_eq!(parse_eth_quantity("0x12345678"), Some(305419896));
    assert_eq!(parse_eth_quantity("0x0"), Some(0));
    assert_eq!(parse_eth_quantity("ff"), Some(255));
    assert_eq!(parse_eth_quantity("0x"), None);
    assert_eq!(parse_eth_quantity("latest"), None);
}

#[test]
fn eth_quantity_round_trips() {
    for n in [0u64, 1, 15, 16, 100, 305419896, u64::MAX] {
        let encoded = format!("0x{}", u64_to_hex(n));
        assert_eq!(parse_eth_quantity(&encoded), Some(n));
    }
}

#[test]
fn json_escape_passes_plain_text() {
    assert_eq!(
        json_escape("00000000839a8e6886ab5951d76f411475428afc90947ee320161bbf18eb6048"),
        "00000000839a8e6886ab5951d76f411475428afc90947ee320161bbf18eb6048"
    );
}

#[test]
fn json_escape_escapes_specials() {
    assert_eq!(json_escape("a\"b"), "a\\\"b");
    assert_eq!(json_escape("a\\b"), "a\\\\b");
    assert_eq!(json_escape("a\nb"), "a\\u000ab");
    assert_eq!(json_escape(""), "");
}

#[test]
fn str_eq_compares_contents() {
    assert!(str_eq("tendermint", "tendermint"));
    assert!(!str_eq("tendermint", "ethereum"));
    assert!(!str_eq("a", "ab"));
    assert!(str_eq("", ""));
}
