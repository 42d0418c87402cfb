use triangle_from_scratch::error::{
    message_was_given, to_single_line, MessageRequest, Win32Error, APPLICATION_ERROR_BIT,
};

fn units(s: &str) -> Vec<u16> {
    s.encode_utf16().collect()
}

#[test]
fn bit_29_marks_an_application_error() {
    assert_eq!(APPLICATION_ERROR_BIT, 1 << 29);
    assert!(Win32Error(1 << 29).is_application_error());
    assert!(Win32Error(u32::MAX).is_application_error());
    assert!(Win32Error((1 << 29) | 5).is_application_error());
}

#[test]
fn a_code_without_bit_29_is_a_system_error() {
    assert!(!Win32Error(0).is_application_error());
    assert!(!Win32Error(5).is_application_error());
    assert!(!Win32Error(1 << 28).is_application_error());
    assert!(!Win32Error(1 << 30).is_application_error());
    assert!(!Win32Error(!(1u32 << 29)).is_application_error());
}

#[test]
fn an_application_error_is_shown_by_its_number() {
    assert_eq!(
        Win32Error(1 << 29).to_text(&[]),
        Some(String::from("Win32ApplicationError(536870912)"))
    );
    assert_eq!(
        Win32Error((1 << 29) + 7).to_text(&[]),
        Some(String::from("Win32ApplicationError(536870919)"))
    );
    assert_eq!(
        Win32Error(u32::MAX).to_text(&[]),
        Some(String::from("Win32ApplicationError(4294967295)"))
    );
}

#[test]
fn an_application_error_does_not_look_at_the_message() {
    assert_eq!(
        Win32Error(1 << 29).to_text(&units("Access is denied.")),
        Some(String::from("Win32ApplicationError(536870912)"))
    );
}

#[test]
fn a_system_error_is_shown_by_its_message() {
    assert_eq!(
        Win32Error(5).to_text(&units("Access is denied.")),
        Some(String::from("Access is denied."))
    );
}

#[test]
fn a_system_message_is_put_on_one_line() {
    assert_eq!(
        Win32Error(5).to_text(&units("Access is denied.\r\n")),
        Some(String::from("Access is denied.  "))
    );
    assert_eq!(
        Win32Error(2).to_text(&units("one\ntwo\rthree")),
        Some(String::from("one two three"))
    );
}

#[test]
fn a_system_message_has_its_broken_units_replaced() {
    assert_eq!(
        Win32Error(87).to_text(&[0x4F, 0xD800, 0x4B, 0xDC00]),
        Some(String::from("O\u{FFFD}K\u{FFFD}"))
    );
    assert_eq!(Win32Error(87).to_text(&[0xD83D, 0xDE00]), Some(String::from("\u{1F600}")));
}

#[test]
fn a_system_error_without_a_message_has_no_text() {
    assert_eq!(Win32Error(0).to_text(&[]), None);
    assert_eq!(Win32Error(5).to_text(&[]), None);
    assert_eq!(Win32Error(1 << 28).to_text(&[]), None);
}

#[test]
fn a_message_of_one_nul_is_a_text() {
    assert_eq!(Win32Error(5).to_text(&[0]), Some(String::from("\0")));
}

#[test]
fn a_system_error_asks_the_message_table() {
    assert_eq!(
        Win32Error(5).message_request(),
        Some(MessageRequest { flags: 0x1300, message_id: 5, language_id: 0, min_size: 0 })
    );
    assert_eq!(
        Win32Error(0).message_request(),
        Some(MessageRequest { flags: 0x1300, message_id: 0, language_id: 0, min_size: 0 })
    );
}

#[test]
fn an_application_error_asks_for_nothing() {
    assert_eq!(Win32Error(1 << 29).message_request(), None);
    assert_eq!(Win32Error(u32::MAX).message_request(), None);
}

#[test]
fn single_line_turns_each_break_into_a_space() {
    assert_eq!(to_single_line("a\r\nb\n\nc\r"), "a  b  c ");
    assert_eq!(to_single_line(""), "");
    assert_eq!(to_single_line("tab\tstays"), "tab\tstays");
    assert_eq!(to_single_line("\u{1F600}\n"), "\u{1F600} ");
}

#[test]
fn errors_compare_by_their_code() {
    assert_eq!(Win32Error(5), Win32Error(5));
    assert_ne!(Win32Error(5), Win32Error(6));
    assert_eq!(format!("{:?}", Win32Error(5)), "Win32Error(5)");
}

#[test]
fn a_message_was_given_where_units_were_written_to_a_buffer() {
    assert!(message_was_given(17, 0x4000));
    assert!(!message_was_given(0, 0x4000));
    assert!(!message_was_given(17, 0));
    assert!(!message_was_given(0, 0));
}
