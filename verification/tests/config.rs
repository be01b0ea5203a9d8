use pxtally::config::{oklch_hue_in_range, parse_u16};

#[test]
fn parse_u16_checking_value() {
    assert_eq!(parse_u16("0"), Some(0));
    assert_eq!(parse_u16("359"), Some(359));
    assert_eq!(parse_u16("+42"), Some(42));
    assert_eq!(parse_u16("00065535"), Some(65535));
    assert_eq!(parse_u16("65536"), None);
    assert_eq!(parse_u16("999999"), None);
    assert_eq!(parse_u16(""), None);
    assert_eq!(parse_u16("+"), None);
    assert_eq!(parse_u16("-1"), None);
    assert_eq!(parse_u16(" 1"), None);
    assert_eq!(parse_u16("1x"), None);
    assert_eq!(parse_u16("١"), None);
}

#[test]
fn parse_u16_agrees_with_std() {
    for text in ["0", "7", "+7", "++7", "-0", "12a", "65535", "65536", "99999999999", "", "+", "٣", "0x1"] {
        assert_eq!(parse_u16(text), text.parse::<u16>().ok(), "text {text:?}");
    }
    for value in (0..=u16::MAX).step_by(97) {
        assert_eq!(parse_u16(&value.to_string()), Some(value));
    }
}

#[test]
fn oklch_hue_in_range_checking_value() {
    assert_eq!(oklch_hue_in_range("0"), Ok(0));
    assert_eq!(oklch_hue_in_range("300"), Ok(300));
    assert_eq!(oklch_hue_in_range("359"), Ok(359));
    assert_eq!(oklch_hue_in_range("360"), Err("hue is not in range 0-360".to_string()));
    assert_eq!(oklch_hue_in_range("4000"), Err("hue is not in range 0-360".to_string()));
    assert_eq!(oklch_hue_in_range("abc"), Err("abc is not a u16 number.".to_string()));
    assert_eq!(oklch_hue_in_range("-5"), Err("-5 is not a u16 number.".to_string()));
    assert_eq!(oklch_hue_in_range("70000"), Err("70000 is not a u16 number.".to_string()));
}
