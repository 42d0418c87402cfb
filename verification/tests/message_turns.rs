use triangle_from_scratch::error::Win32Error;
use triangle_from_scratch::message_loop::{turn, Turn};
use triangle_from_scratch::win32::{MSG, WM_PAINT, WM_QUIT};

fn message(kind: u32, w_param: usize) -> MSG {
    let mut m = MSG::default();
    m.hwnd = 0x77;
    m.message = kind;
    m.wParam = w_param;
    m
}

#[test]
fn the_quit_message_leaves_with_its_exit_code() {
    assert_eq!(turn(Ok(message(WM_QUIT, 0))), Turn::Exit(0));
    assert_eq!(turn(Ok(message(WM_QUIT, 3))), Turn::Exit(3));
    assert_eq!(turn(Ok(message(WM_QUIT, i32::MAX as usize))), Turn::Exit(i32::MAX));
}

#[test]
fn the_exit_code_is_the_low_half_of_the_parameter() {
    assert_eq!(turn(Ok(message(WM_QUIT, 0xFFFF_FFFF))), Turn::Exit(-1));
    assert_eq!(turn(Ok(message(WM_QUIT, 0x8000_0000))), Turn::Exit(i32::MIN));
    assert_eq!(turn(Ok(message(WM_QUIT, (-7i32) as usize))), Turn::Exit(-7));
}

#[test]
fn any_other_message_is_dispatched_as_it_came() {
    let m = message(WM_PAINT, 9);
    assert_eq!(turn(Ok(m)), Turn::Dispatch(m));
    let n = message(0, 0);
    assert_eq!(turn(Ok(n)), Turn::Dispatch(n));
}

#[test]
fn a_failing_queue_stops_the_loop_with_its_error() {
    assert_eq!(turn(Err(Win32Error(1400))), Turn::Fail(Win32Error(1400)));
}
