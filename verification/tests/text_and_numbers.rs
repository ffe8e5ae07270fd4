use api_lightning::functions::{base64_to_hex, buffer_as_hex, bytes_to_string, try_base64_to_hex};
use api_lightning::text::{
    i64_to_decimal, parse_i32, parse_i64, parse_u64, push_hex, push_u64_decimal, replace_all_str,
    str_equals, trim_str, u64_to_decimal,
};
use api_lightning::utils::check::{validate_int, validate_long};

#[test]
fn validate_long_reads_a_number() {
    match validate_long("2") {
        Ok(n) => assert_eq!(2, n),
        Err(e) => panic!("Returned Err! => {}", e.error_message),
    }
}

#[test]
fn validate_long_refuses_text() {
    let err = validate_long("a").unwrap_err();
    assert_eq!(err.error_status_code, 400);
    assert_eq!(err.error_message, "Error parsing string: 'a', not a valid integer");
}

#[test]
fn validate_long_limits() {
    assert_eq!(validate_long("9223372036854775807").unwrap(), i64::MAX);
    assert_eq!(validate_long("-9223372036854775808").unwrap(), i64::MIN);
    assert!(validate_long("9223372036854775808").is_err());
    assert_eq!(validate_long("+17").unwrap(), 17);
    assert!(validate_long("").is_err());
    assert!(validate_long("-").is_err());
    assert!(validate_long(" 1").is_err());
}

#[test]
fn validate_int_reads_and_refuses() {
    assert_eq!(validate_int("-2147483648").unwrap(), i32::MIN);
    assert_eq!(validate_int("2147483647").unwrap(), i32::MAX);
    let err = validate_int("2147483648").unwrap_err();
    assert_eq!(err.error_status_code, 400);
    assert_eq!(err.error_message, "Error parsing string: '2147483648', not a valid integer");
}

#[test]
fn parsers_agree_with_std() {
    for text in ["0", "-0", "+0", "42", "-42", "+42", "007", "1a", "", "+", "-", "18446744073709551615",
        "18446744073709551616", "-1", "99999999999999999999999", "9223372036854775807"]
    {
        assert_eq!(parse_i64(text), text.parse::<i64>().ok(), "i64 {}", text);
        assert_eq!(parse_i32(text), text.parse::<i32>().ok(), "i32 {}", text);
        assert_eq!(parse_u64(text), text.parse::<u64>().ok(), "u64 {}", text);
    }
}

#[test]
fn decimal_writing_matches_to_string() {
    assert_eq!(u64_to_decimal(0), "0");
    assert_eq!(u64_to_decimal(u64::MAX), u64::MAX.to_string());
    assert_eq!(i64_to_decimal(-42), "-42");
    assert_eq!(i64_to_decimal(i64::MIN), i64::MIN.to_string());
    assert_eq!(i64_to_decimal(i64::MAX), i64::MAX.to_string());
    let mut out = String::from("n=");
    push_u64_decimal(&mut out, 907);
    assert_eq!(out, "n=907");
}

#[test]
fn decimal_round_trip() {
    for v in [0i64, 1, -1, 12345, i64::MIN, i64::MAX] {
        assert_eq!(parse_i64(&i64_to_decimal(v)), Some(v));
    }
    for v in [0u64, 9, 10, u64::MAX] {
        assert_eq!(parse_u64(&u64_to_decimal(v)), Some(v));
    }
}

#[test]
fn hex_writing() {
    assert_eq!(buffer_as_hex(vec![0xde, 0xad, 0x00, 0x0f]), "dead000f");
    assert_eq!(bytes_to_string(&[1, 2, 255]), "0102ff");
    assert_eq!(bytes_to_string(&[]), "");
    let mut out = String::from(">");
    push_hex(&mut out, &[0xab]);
    assert_eq!(out, ">ab");
}

#[test]
fn base64_to_hex_decodes() {
    assert_eq!(base64_to_hex("AAE=".to_string()), "0001");
    assert_eq!(base64_to_hex("3q2+7w==".to_string()), "deadbeef");
    assert_eq!(base64_to_hex("".to_string()), "");
}

#[test]
fn try_base64_to_hex_refuses_bad_text() {
    assert_eq!(try_base64_to_hex("AAE=".to_string()), Some("0001".to_string()));
    assert_eq!(try_base64_to_hex("!!".to_string()), None);
    assert_eq!(try_base64_to_hex("AAE".to_string()), Some("0001".to_string()));
    assert_eq!(try_base64_to_hex("A".to_string()), None);
}

#[test]
fn replace_and_trim() {
    assert_eq!(replace_all_str("Bearer abc", "Bearer ", ""), "abc");
    assert_eq!(replace_all_str("aXbXXc", "X", "-"), "a-b--c");
    assert_eq!(replace_all_str("aaa", "aa", "b"), "ba");
    assert_eq!(trim_str("  a b \n"), "a b");
    assert_eq!(trim_str("\u{3000}x\u{a0}"), "x");
    assert_eq!(trim_str("   "), "");
    assert!(str_equals("abc", "abc"));
    assert!(!str_equals("abc", "abd"));
    assert!(!str_equals("abc", "ab"));
}

#[test]
fn validate_long_error_text() {
    match validate_long("a") {
        Err(e) if e.to_string() == "Error parsing string: 'a', not a valid integer" => (),
        Err(e) => panic!("Returned incorrect Err! => {}", e.to_string()),
        Ok(_) => panic!("Returned an Ok variant!"),
    }
}
