use solv_marshal::native_string::find_nul;
use solv_marshal::{NativeString, NulError};

fn refused(text: &str) -> NulError {
    match NativeString::new(text) {
        Ok(_) => panic!("a string with a nul byte was accepted"),
        Err(e) => e,
    }
}

#[test]
fn find_nul_on_empty_input_finds_nothing() {
    assert_eq!(find_nul(b""), None);
}

#[test]
fn find_nul_without_a_nul_finds_nothing() {
    assert_eq!(find_nul(b"updates"), None);
    assert_eq!(find_nul(&[1, 2, 255, 128]), None);
}

#[test]
fn find_nul_gives_the_first_of_several() {
    assert_eq!(find_nul(b"ab\0cd\0ef"), Some(2));
    assert_eq!(find_nul(&[0, 0, 0]), Some(0));
}

#[test]
fn find_nul_sees_a_nul_at_either_end() {
    assert_eq!(find_nul(b"\0abc"), Some(0));
    assert_eq!(find_nul(b"abc\0"), Some(3));
}

#[test]
fn new_closes_the_text_with_a_nul() {
    let native = NativeString::new("linux_x64").unwrap();
    assert_eq!(native.as_bytes(), b"linux_x64");
    assert_eq!(native.as_bytes_with_nul(), b"linux_x64\0");
}

#[test]
fn new_accepts_the_empty_text() {
    let native = NativeString::new("").unwrap();
    assert_eq!(native.as_bytes(), b"");
    assert_eq!(native.as_bytes_with_nul(), b"\0");
}

#[test]
fn new_keeps_the_bytes_of_wide_characters() {
    let native = NativeString::new("pak\u{e9}t-\u{65e5}\u{672c}").unwrap();
    assert_eq!(native.as_bytes(), "pak\u{e9}t-\u{65e5}\u{672c}".as_bytes());
    assert_eq!(native.as_bytes_with_nul().len(), "pak\u{e9}t-\u{65e5}\u{672c}".len() + 1);
    assert_eq!(native.as_bytes_with_nul().last(), Some(&0u8));
}

#[test]
fn accepted_bytes_hold_no_nul() {
    let native = NativeString::new("updates").unwrap();
    assert_eq!(find_nul(native.as_bytes()), None);
    assert_eq!(find_nul(native.as_bytes_with_nul()), Some(7));
}

#[test]
fn new_refuses_an_inner_nul() {
    assert_eq!(refused("up\0dates").nul_position(), 2);
}

#[test]
fn new_refuses_a_leading_nul() {
    assert_eq!(refused("\0").nul_position(), 0);
    assert_eq!(refused("\0updates").nul_position(), 0);
}

#[test]
fn new_refuses_a_trailing_nul() {
    assert_eq!(refused("updates\0").nul_position(), 7);
}

#[test]
fn new_reports_the_first_of_several_nuls() {
    assert_eq!(refused("a\0b\0c\0").nul_position(), 1);
}

#[test]
fn nul_position_counts_bytes_not_characters() {
    assert_eq!(refused("\u{e9}\0").nul_position(), 2);
    assert_eq!(refused("\u{65e5}\u{672c}\0").nul_position(), 6);
    assert_eq!(refused("a\u{1f600}\0b").nul_position(), 5);
}

#[test]
fn nul_errors_compare_by_position() {
    assert_eq!(refused("ab\0"), refused("cd\0ef"));
    assert_ne!(refused("ab\0"), refused("a\0b"));
}
