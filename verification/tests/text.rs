use phidget::errors::ReturnCode;
use phidget::text::{
    contains_nul, native_text, optional_text_reply, strict_text, text_or_empty_reply, text_reply,
};

#[test]
fn nul_is_found_wherever_it_stands() {
    assert!(!contains_nul(""));
    assert!(!contains_nul("label"));
    assert!(contains_nul("\0"));
    assert!(contains_nul("la\0bel"));
    assert!(contains_nul("label\0"));
    assert!(!contains_nul("größe 0"));
    assert!(contains_nul("größe\0"));
}

#[test]
fn texts_with_nul_cannot_go_to_the_native_library() {
    assert_eq!(native_text("kitchen"), Ok(()));
    assert_eq!(native_text(""), Ok(()));
    assert_eq!(native_text("kit\0chen"), Err(ReturnCode::Invalid));
}

#[test]
fn text_replies() {
    assert_eq!(text_reply(0, Some(b"1.14")), Ok(String::from("1.14")));
    assert_eq!(text_reply(0, None), Err(ReturnCode::NoMemory));
    assert_eq!(text_reply(3, Some(b"1.14")), Err(ReturnCode::Timeout));
    assert_eq!(text_reply(52, None), Err(ReturnCode::NotAttached));
    assert_eq!(text_reply(99, None), Err(ReturnCode::Unexpected));
}

#[test]
fn text_replies_are_read_leniently() {
    assert_eq!(
        text_reply(0, Some(b"ab\xffcd")),
        Ok(String::from("ab\u{fffd}cd"))
    );
    assert_eq!(
        text_reply(0, Some("größe".as_bytes())),
        Ok(String::from("größe"))
    );
    assert_eq!(
        optional_text_reply(0, Some(b"\xc3")),
        Ok(Some(String::from("\u{fffd}")))
    );
}

#[test]
fn optional_text_replies() {
    assert_eq!(optional_text_reply(0, None), Ok(None));
    assert_eq!(
        optional_text_reply(0, Some(b"bench")),
        Ok(Some(String::from("bench")))
    );
    assert_eq!(optional_text_reply(20, Some(b"bench")), Err(ReturnCode::Unsupported));
}

#[test]
fn text_or_empty_replies() {
    assert_eq!(text_or_empty_reply(0, None), Ok(String::new()));
    assert_eq!(text_or_empty_reply(0, Some(b"HUB0000")), Ok(String::from("HUB0000")));
    assert_eq!(text_or_empty_reply(52, None), Err(ReturnCode::NotAttached));
}

#[test]
fn strict_texts() {
    assert_eq!(strict_text(None), Ok(String::new()));
    assert_eq!(strict_text(Some(b"server")), Ok(String::from("server")));
    assert_eq!(strict_text(Some("größe".as_bytes())), Ok(String::from("größe")));
    assert_eq!(strict_text(Some(b"ab\xffcd")), Err(ReturnCode::Invalid));
    assert_eq!(strict_text(Some(b"\xc3")), Err(ReturnCode::Invalid));
}
