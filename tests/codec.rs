use sol_trade_sdk::codec::{
    current_timestamp, decode_base64, discriminator_matches, encode_base64, extract_discriminator,
    extract_program_data, extract_program_log, read_u16_le, read_u32_le, read_u64_le, read_u8,
    timestamp_from, validate_account_indices,
};

#[test]
fn reads_little_endian_integers() {
    let data = [1u8, 2, 3, 4, 5, 6, 7, 8, 9];
    assert_eq!(read_u64_le(&data, 0), Some(0x0807060504030201));
    assert_eq!(read_u64_le(&data, 1), Some(0x0908070605040302));
    assert_eq!(read_u64_le(&data, 2), None);
    assert_eq!(read_u32_le(&data, 5), Some(0x09080706));
    assert_eq!(read_u32_le(&data, 6), None);
    assert_eq!(read_u16_le(&data, 7), Some(0x0908));
    assert_eq!(read_u16_le(&data, 8), None);
    assert_eq!(read_u8(&data, 8), Some(9));
    assert_eq!(read_u8(&data, 9), None);
    assert_eq!(read_u64_le(&data, usize::MAX), None);
}

#[test]
fn reads_largest_values() {
    let data = [0xffu8; 8];
    assert_eq!(read_u64_le(&data, 0), Some(u64::MAX));
    assert_eq!(read_u32_le(&data, 4), Some(u32::MAX));
    assert_eq!(read_u16_le(&data, 6), Some(u16::MAX));
}

#[test]
fn validates_account_indices() {
    assert!(validate_account_indices(&[0, 1, 2], 3));
    assert!(!validate_account_indices(&[0, 3], 3));
    assert!(validate_account_indices(&[], 0));
}

#[test]
fn splits_discriminator() {
    let data = [1u8, 2, 3, 4];
    let (head, rest) = extract_discriminator(2, &data).unwrap();
    assert_eq!(head, &[1, 2]);
    assert_eq!(rest, &[3, 4]);
    let (head, rest) = extract_discriminator(4, &data).unwrap();
    assert_eq!(head, &[1, 2, 3, 4]);
    assert!(rest.is_empty());
    assert!(extract_discriminator(5, &data).is_none());
}

#[test]
fn matches_discriminator_prefix() {
    assert!(discriminator_matches("abcdef", "abc"));
    assert!(discriminator_matches("abc", "abc"));
    assert!(!discriminator_matches("ab", "abc"));
    assert!(!discriminator_matches("abd", "abc"));
    assert!(discriminator_matches("anything", ""));
}

#[test]
fn strips_log_prefixes() {
    assert_eq!(extract_program_data("Program data: AAEC"), Some("AAEC"));
    assert_eq!(extract_program_data("Program log: x"), None);
    assert_eq!(extract_program_data("Program data: "), Some(""));
    assert_eq!(extract_program_log("Program log: hi", "Program log: "), Some("hi"));
    assert_eq!(extract_program_log("short", "longer prefix"), None);
    assert_eq!(extract_program_log("héllo wörld", "héllo "), Some("wörld"));
}

#[test]
fn encodes_and_decodes_base64() {
    assert_eq!(encode_base64(b"hello"), "aGVsbG8=");
    assert_eq!(encode_base64(b""), "");
    assert_eq!(decode_base64("aGVsbG8=").unwrap(), b"hello".to_vec());
    assert!(decode_base64("not base64!").is_err());
}

#[test]
fn converts_clock_readings() {
    assert_eq!(timestamp_from(Some(1_700_000_000)), 1_700_000_000);
    assert_eq!(timestamp_from(Some(u64::MAX)), i64::MAX);
    assert_eq!(timestamp_from(None), 0);
    assert!(current_timestamp() > 1_600_000_000);
}
