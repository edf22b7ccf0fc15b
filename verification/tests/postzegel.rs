use made_funicular_postzegel_io_router::postzegel::is_valid_code_byte;
use made_funicular_postzegel_io_router::postzegel::PostzegelEvent;

#[test]
fn postzegel_lowercase() {
    assert!(is_valid_code_byte(b'a'));
    assert!(is_valid_code_byte(b'q'));
    assert!(is_valid_code_byte(b'z'));
}

#[test]
fn postzegel_uppercase() {
    assert!(is_valid_code_byte(b'A'));
    assert!(is_valid_code_byte(b'F'));
    assert!(is_valid_code_byte(b'Z'));
}

#[test]
fn postzegel_digit() {
    assert!(is_valid_code_byte(b'0'));
    assert!(is_valid_code_byte(b'5'));
    assert!(is_valid_code_byte(b'9'));
}

#[test]
fn postzegel_not_alphanumeric() {
    assert!(!is_valid_code_byte(b'#'));
    assert!(!is_valid_code_byte(b'$'));
    assert!(!is_valid_code_byte(b'='));
    assert!(!is_valid_code_byte(b'\n'));
    assert!(!is_valid_code_byte(b' '));
    assert!(!is_valid_code_byte(b'\0'));
    assert!(!is_valid_code_byte(b'0' - 1));
    assert!(!is_valid_code_byte(b'9' + 1));
    assert!(!is_valid_code_byte(b'a' - 1));
    assert!(!is_valid_code_byte(b'z' + 1));
    assert!(!is_valid_code_byte(b'A' - 1));
    assert!(!is_valid_code_byte(b'Z' + 1));
}

#[test]
fn letters() {
    let str = PostzegelEvent::new([b'a', b'b', b'c', b'd', b'e', b'f', b'G', b'H', b'I']).code_str();
    assert_eq!(str, "abcdefGHI");
}

#[test]
fn code_str_digits() {
    let str = PostzegelEvent::new([b'1', b'3', b'5', b'7', b'9', b'2', b'4', b'6', b'8']).code_str();
    assert_eq!(str, "135792468");
}

#[test]
fn code_str_mixed() {
    let str = PostzegelEvent::new([b'1', b'3', b'5', b'7', b'9', b'A', b'L', b'l', b'o']).code_str();
    assert_eq!(str, "13579ALlo");
}

#[test]
fn every_byte_value_is_classified() {
    for c in 0u8..=255 {
        let expected = (b'a'..=b'z').contains(&c) || (b'A'..=b'Z').contains(&c) || (b'0'..=b'9').contains(&c);
        assert_eq!(is_valid_code_byte(c), expected, "byte {c}");
    }
}

#[test]
fn try_new_accepts_alphanumeric_codes() {
    let e = PostzegelEvent::try_new(*b"abc123XYZ").expect("valid code");
    assert_eq!(e.code_str(), "abc123XYZ");
}

#[test]
fn try_new_refuses_a_code_with_a_dash() {
    assert!(PostzegelEvent::try_new(*b"abc-23XYZ").is_none());
    assert!(PostzegelEvent::try_new(*b"abc123XY ").is_none());
    assert!(PostzegelEvent::try_new(*b"\0bc123XYZ").is_none());
}
