use triangle_from_scratch::calls::{
    fill_result, handle_result, message_box_request, message_box_result, message_result,
    paint_arguments, paint_result, register_result, userdata_result, was_translated,
    window_request,
};
use triangle_from_scratch::error::Win32Error;
use triangle_from_scratch::win32::{
    CW_USEDEFAULT, IDOK, MB_OKCANCEL, MSG, PAINTSTRUCT, POINT, RECT, WM_PAINT,
    WS_OVERLAPPEDWINDOW,
};

#[test]
fn userdata_of_zero_is_a_value_while_the_last_error_is_clear() {
    assert_eq!(userdata_result(0, Win32Error(0)), Ok(0));
}

#[test]
fn userdata_of_zero_is_a_failure_once_the_last_error_is_set() {
    assert_eq!(userdata_result(0, Win32Error(1400)), Err(Win32Error(1400)));
}

#[test]
fn userdata_other_than_zero_is_a_value_whatever_the_last_error() {
    assert_eq!(userdata_result(0x1000, Win32Error(0)), Ok(0x1000));
    assert_eq!(userdata_result(0x1000, Win32Error(1400)), Ok(0x1000));
    assert_eq!(userdata_result(usize::MAX, Win32Error(5)), Ok(usize::MAX));
}

#[test]
fn a_null_handle_is_a_failure() {
    assert_eq!(handle_result(0, Win32Error(6)), Err(Win32Error(6)));
    assert_eq!(handle_result(0, Win32Error(0)), Err(Win32Error(0)));
}

#[test]
fn a_handle_is_handed_on() {
    assert_eq!(handle_result(0x10003, Win32Error(6)), Ok(0x10003));
    assert_eq!(handle_result(1, Win32Error(0)), Ok(1));
}

#[test]
fn painting_begins_with_a_device_context() {
    let mut paint = PAINTSTRUCT::default();
    paint.hdc = 0x42;
    paint.fErase = 1;
    paint.rcPaint = RECT { left: 1, top: 2, right: 3, bottom: 4 };
    assert_eq!(paint_result(0x42, paint, Win32Error(5)), Ok((0x42, paint)));
}

#[test]
fn painting_does_not_begin_without_a_device_context() {
    assert_eq!(
        paint_result(0, PAINTSTRUCT::default(), Win32Error(1400)),
        Err(Win32Error(1400))
    );
}

#[test]
fn a_painter_is_told_whether_to_erase_and_where_to_paint() {
    let mut paint = PAINTSTRUCT::default();
    paint.rcPaint = RECT { left: 10, top: 20, right: 30, bottom: 40 };
    assert_eq!(
        paint_arguments(&paint),
        (false, RECT { left: 10, top: 20, right: 30, bottom: 40 })
    );
    paint.fErase = 1;
    assert_eq!(paint_arguments(&paint).0, true);
    paint.fErase = -1;
    assert_eq!(paint_arguments(&paint).0, true);
}

#[test]
fn filling_fails_on_zero_only() {
    assert_eq!(fill_result(0), Err(()));
    assert_eq!(fill_result(1), Ok(()));
    assert_eq!(fill_result(-1), Ok(()));
}

#[test]
fn a_message_box_answers_with_its_button() {
    assert_eq!(message_box_result(IDOK, Win32Error(0)), Ok(1));
    assert_eq!(message_box_result(2, Win32Error(5)), Ok(2));
}

#[test]
fn a_message_box_fails_with_zero() {
    assert_eq!(message_box_result(0, Win32Error(8)), Err(Win32Error(8)));
}

#[test]
fn a_class_registers_to_an_atom() {
    assert_eq!(register_result(0xC001, Win32Error(0)), Ok(0xC001));
    assert_eq!(register_result(0, Win32Error(1410)), Err(Win32Error(1410)));
}

#[test]
fn the_queue_fails_with_minus_one_only() {
    let mut message = MSG::default();
    message.message = WM_PAINT;
    message.pt = POINT { x: 3, y: 4 };
    assert_eq!(message_result(-1, message, Win32Error(1400)), Err(Win32Error(1400)));
    assert_eq!(message_result(1, message, Win32Error(1400)), Ok(message));
    assert_eq!(message_result(0, message, Win32Error(0)), Ok(message));
    assert_eq!(message_result(-2, message, Win32Error(0)), Ok(message));
}

#[test]
fn a_message_was_translated_unless_the_output_is_zero() {
    assert!(!was_translated(0));
    assert!(was_translated(1));
    assert!(was_translated(-1));
}

#[test]
fn a_window_without_coordinates_goes_where_the_system_puts_it() {
    let r = window_request("Sample Window Class", "Sample Window Name", None, [800, 600], 0x5000);
    let class: Vec<u16> = "Sample Window Class".encode_utf16().chain(Some(0)).collect();
    let name: Vec<u16> = "Sample Window Name".encode_utf16().chain(Some(0)).collect();
    assert_eq!(r.ex_style, 0);
    assert_eq!(r.class_name, class);
    assert_eq!(r.window_name, name);
    assert_eq!(r.style, WS_OVERLAPPEDWINDOW);
    assert_eq!(r.style, 0x00CF0000);
    assert_eq!((r.x, r.y), (CW_USEDEFAULT, CW_USEDEFAULT));
    assert_eq!((r.width, r.height), (800, 600));
    assert_eq!((r.parent, r.menu), (0, 0));
    assert_eq!(r.param, 0x5000);
}

#[test]
fn a_window_with_coordinates_goes_there() {
    let r = window_request("c", "n", Some([-10, 25]), [1, 2], 0);
    assert_eq!((r.x, r.y), (-10, 25));
    assert_eq!((r.width, r.height), (1, 2));
    assert_eq!(r.class_name, vec![0x63u16, 0]);
    assert_eq!(r.window_name, vec![0x6Eu16, 0]);
}

#[test]
fn a_message_box_is_asked_for_with_ok_and_cancel() {
    let r = message_box_request("Wait a minute!", "Do you really want to quit?");
    let caption: Vec<u16> = "Wait a minute!".encode_utf16().chain(Some(0)).collect();
    let text: Vec<u16> = "Do you really want to quit?".encode_utf16().chain(Some(0)).collect();
    assert_eq!(r.caption, caption);
    assert_eq!(r.text, text);
    assert_eq!(r.kind, MB_OKCANCEL);
    assert_eq!(r.kind, 1);
}
