use guessing_game::{parse_u32, trim};

#[test]
fn parse_plain_number() {
    assert_eq!(parse_u32(b"42"), Some(42));
}

#[test]
fn parse_with_plus_sign() {
    assert_eq!(parse_u32(b"+42"), Some(42));
}

#[test]
fn parse_leading_zeros() {
    assert_eq!(parse_u32(b"0042"), Some(42));
}

#[test]
fn parse_many_leading_zeros() {
    assert_eq!(parse_u32(b"00000000000000000042"), Some(42));
}

#[test]
fn parse_zero() {
    assert_eq!(parse_u32(b"0"), Some(0));
}

#[test]
fn parse_largest_value() {
    assert_eq!(parse_u32(b"4294967295"), Some(u32::MAX));
}

#[test]
fn parse_just_over_largest_value() {
    assert_eq!(parse_u32(b"4294967296"), None);
}

#[test]
fn parse_far_over_largest_value() {
    assert_eq!(parse_u32(b"99999999999999999999"), None);
}

#[test]
fn parse_empty() {
    assert_eq!(parse_u32(b""), None);
}

#[test]
fn parse_sign_alone() {
    assert_eq!(parse_u32(b"+"), None);
}

#[test]
fn parse_letters() {
    assert_eq!(parse_u32(b"abc"), None);
}

#[test]
fn parse_digits_then_letter() {
    assert_eq!(parse_u32(b"42x"), None);
}

#[test]
fn parse_inner_space() {
    assert_eq!(parse_u32(b"4 2"), None);
}

#[test]
fn parse_negative() {
    assert_eq!(parse_u32(b"-1"), None);
}

#[test]
fn parse_double_sign() {
    assert_eq!(parse_u32(b"++1"), None);
}

#[test]
fn trim_spaces_and_newline() {
    assert_eq!(trim(b"  42 \n"), b"42".to_vec());
}

#[test]
fn trim_tabs_and_carriage_return() {
    assert_eq!(trim(b"\t1\r\n"), b"1".to_vec());
}

#[test]
fn trim_nothing_to_do() {
    assert_eq!(trim(b"100"), b"100".to_vec());
}

#[test]
fn trim_all_whitespace() {
    assert_eq!(trim(b" \t\r\n "), Vec::<u8>::new());
}

#[test]
fn trim_keeps_inner_whitespace() {
    assert_eq!(trim(b" a b "), b"a b".to_vec());
}

#[test]
fn trim_empty() {
    assert_eq!(trim(b""), Vec::<u8>::new());
}
