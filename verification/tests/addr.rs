use sbchargelimit::addr::{parse_mac, MacAddr};

#[test]
fn parses_uppercase_address() {
    let a = parse_mac("AA:BB:CC:DD:EE:FF").unwrap();
    assert_eq!(a.bits, 0xaabbccddeeff);
}

#[test]
fn parses_lowercase_address() {
    let a = parse_mac("aa:bb:cc:dd:ee:ff").unwrap();
    assert_eq!(a.bits, 0xaabbccddeeff);
}

#[test]
fn parses_mixed_case_and_digits() {
    let a = parse_mac("0A:1b:2C:3d:4E:5f").unwrap();
    assert_eq!(a.bits, 0x0a1b2c3d4e5f);
}

#[test]
fn parses_zero_address() {
    let a = parse_mac("00:00:00:00:00:00").unwrap();
    assert_eq!(a.bits, 0);
}

#[test]
fn rejects_empty_string() {
    assert!(parse_mac("").is_none());
}

#[test]
fn rejects_wrong_length() {
    assert!(parse_mac("aa:bb:cc:dd:ee").is_none());
    assert!(parse_mac("aa:bb:cc:dd:ee:ff:00").is_none());
    assert!(parse_mac("aa:bb:cc:dd:ee:f").is_none());
}

#[test]
fn rejects_wrong_delimiters() {
    assert!(parse_mac("aa-bb-cc-dd-ee-ff").is_none());
    assert!(parse_mac("aa:bb:cc:dd:ee-ff").is_none());
    assert!(parse_mac("aabbccddeeff00000").is_none());
}

#[test]
fn rejects_non_hex_digits() {
    assert!(parse_mac("ga:bb:cc:dd:ee:ff").is_none());
    assert!(parse_mac("aa:bb:cc:dd:ee:fg").is_none());
    assert!(parse_mac("aa:bb:c :dd:ee:ff").is_none());
}

#[test]
fn rejects_non_ascii_input() {
    assert!(parse_mac("aa:bb:cc:dd:ee:f\u{00e9}").is_none());
}

#[test]
fn addresses_compare_by_bits() {
    assert_eq!(MacAddr { bits: 5 }, MacAddr { bits: 5 });
    assert_ne!(MacAddr { bits: 5 }, MacAddr { bits: 6 });
}
