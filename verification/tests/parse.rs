use cyberbun::parse::{parse_color_code, parse_u32, parse_unsigned};

fn chars(s: &str) -> Vec<char> {
    s.chars().collect()
}

#[test]
fn decimal_numbers() {
    assert_eq!(parse_u32(&chars("0")), Some(0));
    assert_eq!(parse_u32(&chars("42")), Some(42));
    assert_eq!(parse_u32(&chars("+7")), Some(7));
    assert_eq!(parse_u32(&chars("007")), Some(7));
}

#[test]
fn decimal_rejects_invalid_input() {
    assert_eq!(parse_u32(&chars("")), None);
    assert_eq!(parse_u32(&chars("+")), None);
    assert_eq!(parse_u32(&chars("4x")), None);
    assert_eq!(parse_u32(&chars("-1")), None);
    assert_eq!(parse_u32(&chars("1 2")), None);
    // hex letters are not decimal digits
    assert_eq!(parse_u32(&chars("ff")), None);
}

#[test]
fn decimal_limits() {
    assert_eq!(parse_u32(&chars("4294967295")), Some(u32::MAX));
    assert_eq!(parse_u32(&chars("4294967296")), None);
    assert_eq!(parse_u32(&chars("99999999999999999999")), None);
}

#[test]
fn hex_base_works_through_the_same_reader() {
    assert_eq!(parse_unsigned(&chars("ff"), 16), Some(255));
    assert_eq!(parse_unsigned(&chars("FF"), 16), Some(255));
    assert_eq!(parse_unsigned(&chars("10"), 16), Some(16));
}

#[test]
fn color_codes() {
    assert_eq!(parse_color_code(&chars("0xffaa99")), Some(0xffaa99));
    assert_eq!(parse_color_code(&chars("#11ffaa")), Some(0x11ffaa));
    assert_eq!(parse_color_code(&chars("ABC")), Some(0xabc));
    assert_eq!(parse_color_code(&chars("ffffff")), Some(0xffffff));
}

#[test]
fn color_markers_are_removed_wherever_they_stand() {
    // every 0x pair and every # goes, scanning left to right
    assert_eq!(parse_color_code(&chars("0xff0xaa")), Some(0xffaa));
    assert_eq!(parse_color_code(&chars("ff#aa")), Some(0xffaa));
    assert_eq!(parse_color_code(&chars("##ff")), Some(0xff));
}

#[test]
fn color_rejects_invalid_input() {
    assert_eq!(parse_color_code(&chars("")), None);
    assert_eq!(parse_color_code(&chars("0x")), None);
    assert_eq!(parse_color_code(&chars("#")), None);
    assert_eq!(parse_color_code(&chars("zz")), None);
    assert_eq!(parse_color_code(&chars("12345678f")), None);
}
