//! The message loop, one turn at a time.
//!
//! A thread with a window takes message after message from its queue. What it
//! does with each is decided here; taking the message and acting on the
//! decision is left to whoever runs the loop.

use crate::error::Win32Error;
use crate::win32::{MSG, WM_QUIT, WPARAM};
use vstd::prelude::*;

verus! {

/// What to do with what the queue gave.
#[derive(Debug, Clone, Copy, PartialEq, Eq)]
pub enum Turn {
    /// The quit message came: leave the loop and end the process with this
    /// exit code.
    Exit(i32),
    /// Another message came: have it translated, then dispatched to the
    /// procedure of its window.
    Dispatch(MSG),
    /// The queue gave no message but an error: the loop cannot go on.
    Fail(Win32Error),
}

/// The exit code that a quit message carries: its first parameter, cut down to
/// 32 bits and read as a signed number.
pub open spec fn exit_code(w_param: WPARAM) -> i32 {
    w_param as i32
}

/// The turn that what the queue gave calls for.
pub open spec fn turn_for(taken: Result<MSG, Win32Error>) -> Turn {
    match taken {
        Ok(message) => if message.message == WM_QUIT {
            Turn::Exit(exit_code(message.wParam))
        } else {
            Turn::Dispatch(message)
        },
        Err(e) => Turn::Fail(e),
    }
}

/// Decides one turn of the loop.
pub fn turn(taken: Result<MSG, Win32Error>) -> (r: Turn)
    ensures
        r == turn_for(taken),
{
    match taken {
        Ok(message) => if message.message == WM_QUIT {
            Turn::Exit(#[verifier::truncate] (message.wParam as i32))
        } else {
            Turn::Dispatch(message)
        },
        Err(e) => Turn::Fail(e),
    }
}

/// The exit code is the low half of the parameter: a parameter that fits into
/// a signed 32-bit number is its own exit code, and the parameter that a
/// negative exit code was widened to gives that code back.
pub proof fn lemma_exit_code(w_param: WPARAM)
    ensures
        w_param <= i32::MAX ==> exit_code(w_param) == w_param,
        exit_code(w_param) as int == {
            let low = w_param as int % 0x1_0000_0000;
            if low < 0x8000_0000 {
                low
            } else {
                low - 0x1_0000_0000
            }
        },
{
    let bits = w_param as u64;
    assert(w_param <= 0x7FFF_FFFF ==> w_param as i32 == w_param) by (bit_vector);
    assert(bits % 0x1_0000_0000 < 0x8000_0000 ==> w_param as i32 == bits % 0x1_0000_0000)
        by (bit_vector)
        requires
            bits == w_param as u64,
    ;
    assert(bits % 0x1_0000_0000 >= 0x8000_0000 ==> w_param as i32 == bits % 0x1_0000_0000
        - 0x1_0000_0000) by (bit_vector)
        requires
            bits == w_param as u64,
    ;
}

} // verus!
