//! What goes into the windowing calls and what their results mean.
//!
//! Each call reports failure in its own way: a null handle, a zero, a minus
//! one, or a zero that is a failure only where the last-error code says so. The
//! functions here turn the raw result, together with the last-error code read
//! after the call, into a `Result`; and they put together what the calls that
//! take text are handed.

use crate::error::Win32Error;
use crate::win32::{
    wide, wide_null, ATOM, BOOL, CW_USEDEFAULT, DWORD, HANDLE, HDC, HMENU, HWND, LONG_PTR, LPVOID,
    MB_OKCANCEL, MSG, PAINTSTRUCT, RECT, UINT, WS_OVERLAPPEDWINDOW,
};
use vstd::prelude::*;

verus! {

/// The result of storing or reading a window's userdata. The value itself may
/// be zero, so a zero is a failure only where the last-error code, cleared
/// before the call, is no longer zero.
pub fn userdata_result(value: LONG_PTR, last_error: Win32Error) -> (r: Result<
    LONG_PTR,
    Win32Error,
>)
    ensures
        r == if value == 0 && last_error.0 != 0 {
            Err::<LONG_PTR, Win32Error>(last_error)
        } else {
            Ok(value)
        },
{
    if value == 0 && last_error.0 != 0 {
        Err(last_error)
    } else {
        Ok(value)
    }
}

/// The result of a call that gives a handle: the null handle is its failure.
/// Loading a cursor and creating a window report in this way.
pub fn handle_result(handle: HANDLE, last_error: Win32Error) -> (r: Result<HANDLE, Win32Error>)
    ensures
        r == if handle == 0 {
            Err::<HANDLE, Win32Error>(last_error)
        } else {
            Ok(handle)
        },
{
    if handle == 0 {
        Err(last_error)
    } else {
        Ok(handle)
    }
}

/// The result of beginning to paint: the device context with the paint state
/// that came with it, and the failure where the context is null.
pub fn paint_result(hdc: HDC, paint: PAINTSTRUCT, last_error: Win32Error) -> (r: Result<
    (HDC, PAINTSTRUCT),
    Win32Error,
>)
    ensures
        r == if hdc == 0 {
            Err::<(HDC, PAINTSTRUCT), Win32Error>(last_error)
        } else {
            Ok((hdc, paint))
        },
{
    if hdc == 0 {
        Err(last_error)
    } else {
        Ok((hdc, paint))
    }
}

/// What a painter is told of the paint state: whether the background is to be
/// erased, and the rectangle to paint.
pub fn paint_arguments(paint: &PAINTSTRUCT) -> (r: (bool, RECT))
    ensures
        r == (paint.fErase != 0, paint.rcPaint),
{
    (paint.fErase != 0, paint.rcPaint)
}

/// The result of filling a rectangle: zero is its failure, and it has no more
/// to say in either case.
pub fn fill_result(filled: i32) -> (r: Result<(), ()>)
    ensures
        r == if filled != 0 {
            Ok::<(), ()>(())
        } else {
            Err(())
        },
{
    if filled != 0 {
        Ok(())
    } else {
        Err(())
    }
}

/// The result of showing a message box: the button that closed it, and the
/// failure where the answer is zero.
pub fn message_box_result(answer: i32, last_error: Win32Error) -> (r: Result<i32, Win32Error>)
    ensures
        r == if answer == 0 {
            Err::<i32, Win32Error>(last_error)
        } else {
            Ok(answer)
        },
{
    if answer == 0 {
        Err(last_error)
    } else {
        Ok(answer)
    }
}

/// The result of registering a window class: the atom of the class, and the
/// failure where the atom is zero.
pub fn register_result(atom: ATOM, last_error: Win32Error) -> (r: Result<ATOM, Win32Error>)
    ensures
        r == if atom == 0 {
            Err::<ATOM, Win32Error>(last_error)
        } else {
            Ok(atom)
        },
{
    if atom == 0 {
        Err(last_error)
    } else {
        Ok(atom)
    }
}

/// The result of taking a message from the queue: minus one is the failure,
/// and every other output comes with a message.
pub fn message_result(output: BOOL, message: MSG, last_error: Win32Error) -> (r: Result<
    MSG,
    Win32Error,
>)
    ensures
        r == if output == -1 {
            Err::<MSG, Win32Error>(last_error)
        } else {
            Ok(message)
        },
{
    if output == -1 {
        Err(last_error)
    } else {
        Ok(message)
    }
}

/// Whether a message was turned into a character message: any output but zero.
pub fn was_translated(output: BOOL) -> (r: bool)
    ensures
        r == (output != 0),
{
    0 != output
}

/// Where a window is to appear: at the coordinates given, and where none are
/// given, wherever the system puts it.
pub open spec fn position(coordinates: Option<[i32; 2]>) -> (i32, i32) {
    match coordinates {
        Some(at) => (at[0], at[1]),
        None => (CW_USEDEFAULT, CW_USEDEFAULT),
    }
}

/// What the call that creates a window is handed, but for the module that the
/// window belongs to.
#[derive(Debug, PartialEq, Eq)]
pub struct WindowRequest {
    pub ex_style: DWORD,
    pub class_name: Vec<u16>,
    pub window_name: Vec<u16>,
    pub style: DWORD,
    pub x: i32,
    pub y: i32,
    pub width: i32,
    pub height: i32,
    pub parent: HWND,
    pub menu: HMENU,
    pub param: LPVOID,
}

/// The request for an overlapped top-level window of class `class_name` with
/// the title `window_name`: both names as wide strings, no extended style, no
/// parent and no menu, the position as `position` gives it, the size and the
/// creation parameter as they are.
pub fn window_request(
    class_name: &str,
    window_name: &str,
    coordinates: Option<[i32; 2]>,
    size: [i32; 2],
    param: LPVOID,
) -> (r: WindowRequest)
    ensures
        r.ex_style == 0,
        r.class_name@ == wide(class_name@),
        r.window_name@ == wide(window_name@),
        r.style == WS_OVERLAPPEDWINDOW,
        (r.x, r.y) == position(coordinates),
        r.width == size[0],
        r.height == size[1],
        r.parent == 0,
        r.menu == 0,
        r.param == param,
{
    let (x, y) = match coordinates {
        Some(at) => (at[0], at[1]),
        None => (CW_USEDEFAULT, CW_USEDEFAULT),
    };
    WindowRequest {
        ex_style: 0,
        class_name: wide_null(class_name),
        window_name: wide_null(window_name),
        style: WS_OVERLAPPEDWINDOW,
        x,
        y,
        width: size[0],
        height: size[1],
        parent: 0,
        menu: 0,
        param,
    }
}

/// What the call that shows a message box is handed, but for the window that
/// owns the box.
#[derive(Debug, PartialEq, Eq)]
pub struct MessageBoxRequest {
    pub text: Vec<u16>,
    pub caption: Vec<u16>,
    pub kind: UINT,
}

/// The request for a message box with the buttons OK and Cancel: the caption
/// and the text as wide strings.
pub fn message_box_request(caption: &str, text: &str) -> (r: MessageBoxRequest)
    ensures
        r.text@ == wide(text@),
        r.caption@ == wide(caption@),
        r.kind == MB_OKCANCEL,
{
    MessageBoxRequest { text: wide_null(text), caption: wide_null(caption), kind: MB_OKCANCEL }
}

} // verus!
