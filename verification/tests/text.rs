use grandma2::json::NumberLiteral;
use grandma2::text::{parse_u16, push_decimal, push_signed_decimal};

#[test]
fn numbers_below_65536_are_read() {
    assert_eq!(parse_u16("0"), Some(0));
    assert_eq!(parse_u16("1"), Some(1));
    assert_eq!(parse_u16("199"), Some(199));
    assert_eq!(parse_u16("65535"), Some(65535));
    assert_eq!(parse_u16("007"), Some(7));
    assert_eq!(parse_u16("+5"), Some(5));
    assert_eq!(parse_u16("0000000000000000000065535"), Some(65535));
}

#[test]
fn what_is_no_number_below_65536_is_refused() {
    assert_eq!(parse_u16(""), None);
    assert_eq!(parse_u16("+"), None);
    assert_eq!(parse_u16("-1"), None);
    assert_eq!(parse_u16("65536"), None);
    assert_eq!(parse_u16("99999999999999999999999"), None);
    assert_eq!(parse_u16("1 "), None);
    assert_eq!(parse_u16(" 1"), None);
    assert_eq!(parse_u16("1.0"), None);
    assert_eq!(parse_u16("12a"), None);
    assert_eq!(parse_u16("++1"), None);
    assert_eq!(parse_u16("1+"), None);
    assert_eq!(parse_u16("١٢"), None);
    assert_eq!(parse_u16("1é"), None);
}

#[test]
fn reading_agrees_with_the_standard_parser() {
    for text in ["0", "42", "+42", "65535", "65536", "", "+", "-0", "4 2", "0x10"] {
        assert_eq!(parse_u16(text), text.parse::<u16>().ok());
    }
}

#[test]
fn decimals_are_written_without_leading_zeros() {
    let mut buf = String::from("n=");
    push_decimal(&mut buf, 0);
    buf.push(',');
    push_decimal(&mut buf, 9);
    buf.push(',');
    push_decimal(&mut buf, 10);
    buf.push(',');
    push_decimal(&mut buf, 65535);
    buf.push(',');
    push_decimal(&mut buf, u64::MAX);
    assert_eq!(buf, "n=0,9,10,65535,18446744073709551615");
}

#[test]
fn negative_decimals_carry_their_sign() {
    let mut buf = String::new();
    push_signed_decimal(&mut buf, -1);
    buf.push(' ');
    push_signed_decimal(&mut buf, -128);
    buf.push(' ');
    push_signed_decimal(&mut buf, 0);
    buf.push(' ');
    push_signed_decimal(&mut buf, 127);
    buf.push(' ');
    push_signed_decimal(&mut buf, i64::MIN);
    buf.push(' ');
    push_signed_decimal(&mut buf, i64::MAX);
    assert_eq!(
        buf,
        "-1 -128 0 127 -9223372036854775808 9223372036854775807"
    );
}

#[test]
fn json_numbers_are_taken() {
    for text in [
        "0", "-0", "1", "10", "-12", "0.5", "1.000", "0.62068963", "1e5", "1E5", "1e+5", "1e-5",
        "-1.25e-10", "123456789012345678901234567890",
    ] {
        let literal = NumberLiteral::new(text).unwrap();
        assert_eq!(literal.as_str(), text);
        assert_eq!(literal.clone(), literal);
        assert!(serde_json::from_str::<serde_json::Value>(text)
            .unwrap()
            .is_number());
    }
}

#[test]
fn what_is_no_json_number_is_refused() {
    for text in [
        "", "-", "+1", "01", "-01", "1.", ".5", "1e", "1e+", "1e-", "e5", "1.5.2", "1 ", " 1",
        "0x10", "NaN", "Infinity", "1,5", "١", "1é",
    ] {
        assert!(NumberLiteral::new(text).is_none(), "{:?}", text);
        if text.trim() == text {
            assert!(!matches!(
                serde_json::from_str::<serde_json::Value>(text),
                Ok(serde_json::Value::Number(_))
            ));
        }
    }
}
