use ttl_keeper::text::{bytes_to_hex, u32_to_decimal};

#[test]
fn decimal_of_zero() {
    assert_eq!(u32_to_decimal(0), "0");
}

#[test]
fn decimal_of_small_and_large_numbers() {
    assert_eq!(u32_to_decimal(7), "7");
    assert_eq!(u32_to_decimal(10), "10");
    assert_eq!(u32_to_decimal(535679), "535679");
    assert_eq!(u32_to_decimal(u32::MAX), "4294967295");
}

#[test]
fn decimal_matches_std_formatting() {
    for n in [1u32, 9, 99, 100, 101, 65535, 1_000_000, 123_456_789] {
        assert_eq!(u32_to_decimal(n), n.to_string());
    }
}

#[test]
fn hex_of_bytes_is_lower_case_two_digits_each() {
    assert_eq!(bytes_to_hex(&[]), "");
    assert_eq!(bytes_to_hex(&[0x00, 0x0f, 0xa0, 0xff]), "000fa0ff");
}

#[test]
fn hex_matches_xdr_hash_display() {
    let bytes: [u8; 32] = core::array::from_fn(|i| (i * 37 % 256) as u8);
    let expected = stellar_xdr::curr::Hash(bytes).to_string();
    assert_eq!(bytes_to_hex(&bytes), expected);
}

#[test]
fn distinct_bytes_give_distinct_hex() {
    assert_ne!(bytes_to_hex(&[0x01, 0x10]), bytes_to_hex(&[0x11, 0x00]));
}
