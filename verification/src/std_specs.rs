//! Contracts for the two functions of the standard library that the text code
//! calls and that `vstd` leaves without one. Verus takes them on trust.

use vstd::prelude::*;

verus! {

/// `String::push` appends the character to the end of the string and changes
/// nothing else in it.
pub assume_specification[ String::push ](s: &mut String, ch: char)
    ensures
        final(s)@ == old(s)@.push(ch),
;

/// `char::from_u32` gives the character whose scalar value is `i`, and `None`
/// exactly when `i` is no scalar value: a surrogate, or a number above `0x10FFFF`.
pub assume_specification[ char::from_u32 ](i: u32) -> (r: Option<char>)
    ensures
        r == if i <= 0xD7FF || (0xE000 <= i && i <= 0x10_FFFF) {
            Some(i as char)
        } else {
            None::<char>
        },
;

} // verus!
