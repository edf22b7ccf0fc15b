use made_funicular_postzegel_io_router::postzegel_event::is_valid_code_byte;
use made_funicular_postzegel_io_router::postzegel_event::PostzegelEvent;

#[test]
fn postzegel_event_lowercase() {
    assert!(is_valid_code_byte(b'a'));
    assert!(is_valid_code_byte(b'q'));
    assert!(is_valid_code_byte(b'z'));
}

#[test]
fn postzegel_event_uppercase() {
    assert!(is_valid_code_byte(b'A'));
    assert!(is_valid_code_byte(b'F'));
    assert!(is_valid_code_byte(b'Z'));
}

#[test]
fn postzegel_event_digit() {
    assert!(is_valid_code_byte(b'0'));
    assert!(is_valid_code_byte(b'5'));
    assert!(is_valid_code_byte(b'9'));
}

#[test]
fn postzegel_event_not_alphanumeric() {
    assert!(!is_valid_code_byte(b'#'));
    assert!(!is_valid_code_byte(b'$'));
    assert!(!is_valid_code_byte(b'='));
    assert!(!is_valid_code_byte(b'\n'));
    assert!(!is_valid_code_byte(b' '));
    assert!(!is_valid_code_byte(b'\0'));
    assert!(!is_valid_code_byte(b'0' - 1));
    assert!(!is_valid_code_byte(b'9' + 1));
    assert!(!is_valid_code_byte(b'a' - 1));
    assert!(!is_valid_code_byte(b'z' + 1));
    assert!(!is_valid_code_byte(b'A' - 1));
    assert!(!is_valid_code_byte(b'Z' + 1));
}

#[test]
fn both_checks_accept_the_same_bytes() {
    for c in 0u8..=255 {
        assert_eq!(
            is_valid_code_byte(c),
            made_funicular_postzegel_io_router::postzegel::is_valid_code_byte(c)
        );
    }
}

#[test]
fn display_writes_the_code() {
    let e = PostzegelEvent::new(*b"00000x12A");
    assert_eq!(e.to_display_string(), "00000x12A");
    assert!(PostzegelEvent::try_new(*b"00000x12!").is_none());
}
