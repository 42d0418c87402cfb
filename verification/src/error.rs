//! The error code of the operating system, and its text.
//!
//! A code with bit 29 set belongs to the application and is shown by its
//! number. Every other code belongs to the system, which holds its message: the
//! code says what to ask the system for, and turns the wide string that comes
//! back into one line of text.

use crate::decimal::{decimal, push_decimal};
use crate::utf16::{decode_lossy, decode_utf16_lossy};
use crate::win32::{
    DWORD, FORMAT_MESSAGE_ALLOCATE_BUFFER, FORMAT_MESSAGE_FROM_SYSTEM,
    FORMAT_MESSAGE_IGNORE_INSERTS, LPWSTR,
};
use vstd::prelude::*;

verus! {

/// The bit that marks a code as defined by an application.
pub const APPLICATION_ERROR_BIT: DWORD = 0x2000_0000;

/// A last-error code of the operating system.
#[derive(Debug, Clone, Copy, PartialEq, Eq, Structural)]
pub struct Win32Error(pub DWORD);

/// What to ask the system's message table for.
#[derive(Debug, Clone, Copy, PartialEq, Eq, Structural)]
pub struct MessageRequest {
    /// The system allocates the buffer, looks in its own table, and leaves
    /// insert sequences as they are.
    pub flags: DWORD,
    pub message_id: DWORD,
    /// Zero: the system picks the language.
    pub language_id: DWORD,
    /// The least size of the buffer that the system allocates.
    pub min_size: DWORD,
}

/// Whether the code belongs to an application: bit 29 is set.
pub open spec fn is_application_defined(code: DWORD) -> bool {
    code & APPLICATION_ERROR_BIT != 0
}

/// The text of a code that an application defined.
pub open spec fn application_text(code: DWORD) -> Seq<char> {
    ("Win32ApplicationError("@ + decimal(code as nat)).push(')')
}

/// A character of a one-line text: a space for each carriage return and line
/// feed, every other character as it is.
pub open spec fn unbroken(c: char) -> char {
    if c == '\r' || c == '\n' {
        ' '
    } else {
        c
    }
}

/// A text with each of its line breaks turned into a space.
pub open spec fn single_line(text: Seq<char>) -> Seq<char> {
    text.map_values(|c: char| unbroken(c))
}

/// The text of a system message: the lossy decoding of its code units on one
/// line. An empty message is none.
pub open spec fn system_text(message: Seq<u16>) -> Option<Seq<char>> {
    if message.len() == 0 {
        None
    } else {
        Some(single_line(decode_lossy(message)))
    }
}

/// Whether the system gave a message: it wrote at least one code unit, and the
/// buffer that it was to allocate, at the address `buffer`, is there.
pub fn message_was_given(written: DWORD, buffer: LPWSTR) -> (r: bool)
    ensures
        r == (written != 0 && buffer != 0),
{
    written != 0 && buffer != 0
}

/// Turns each line break of `text` into a space.
pub fn to_single_line(text: &str) -> (line: String)
    ensures
        line@ == single_line(text@),
{
    let mut line = String::new();
    for c in chars: text.chars()
        invariant
            chars.seq() == text@,
            line@.len() == chars.index(),
            forall|i: int| 0 <= i < line@.len() ==> line@[i] == unbroken(text@[i]),
    {
        if c == '\r' || c == '\n' {
            line.push(' ');
        } else {
            line.push(c);
        }
    }
    line
}

impl Win32Error {
    /// The text of the code, given the message that the system holds for it.
    pub open spec fn text(&self, system_message: Seq<u16>) -> Option<Seq<char>> {
        if is_application_defined(self.0) {
            Some(application_text(self.0))
        } else {
            system_text(system_message)
        }
    }

    /// What to look up in the system's message table to show this code, and
    /// `None` where nothing is looked up because the code belongs to an
    /// application.
    pub open spec fn spec_message_request(&self) -> Option<MessageRequest> {
        if is_application_defined(self.0) {
            None
        } else {
            Some(
                MessageRequest {
                    flags: FORMAT_MESSAGE_ALLOCATE_BUFFER | FORMAT_MESSAGE_FROM_SYSTEM
                        | FORMAT_MESSAGE_IGNORE_INSERTS,
                    message_id: self.0,
                    language_id: 0,
                    min_size: 0,
                },
            )
        }
    }

    /// Whether the code belongs to an application.
    pub fn is_application_error(&self) -> (r: bool)
        ensures
            r == is_application_defined(self.0),
    {
        self.0 & APPLICATION_ERROR_BIT != 0
    }

    /// What to look up in the system's message table to show this code.
    #[verifier::when_used_as_spec(spec_message_request)]
    pub fn message_request(&self) -> (r: Option<MessageRequest>)
        ensures
            r == self.spec_message_request(),
    {
        if self.is_application_error() {
            None
        } else {
            Some(
                MessageRequest {
                    flags: FORMAT_MESSAGE_ALLOCATE_BUFFER | FORMAT_MESSAGE_FROM_SYSTEM
                        | FORMAT_MESSAGE_IGNORE_INSERTS,
                    message_id: self.0,
                    language_id: 0,
                    min_size: 0,
                },
            )
        }
    }

    /// The text that shows this code. `system_message` holds the code units
    /// that the system gave for the code, and is empty where it gave none or
    /// was not asked. A code of an application is shown by its number whatever
    /// the message holds; a code of the system has no text without a message.
    pub fn to_text(&self, system_message: &[u16]) -> (r: Option<String>)
        ensures
            r is Some <==> self.text(system_message@) is Some,
            r matches Some(shown) ==> self.text(system_message@) == Some(shown@),
    {
        if self.is_application_error() {
            let mut shown = "Win32ApplicationError(".to_owned();
            push_decimal(&mut shown, self.0);
            shown.push(')');
            Some(shown)
        } else if system_message.len() == 0 {
            None
        } else {
            let decoded = decode_utf16_lossy(system_message);
            Some(to_single_line(decoded.as_str()))
        }
    }
}

/// The request for a system message asks with the three flags together.
pub proof fn lemma_message_request_flags()
    ensures
        FORMAT_MESSAGE_ALLOCATE_BUFFER | FORMAT_MESSAGE_FROM_SYSTEM | FORMAT_MESSAGE_IGNORE_INSERTS
            == 0x1300,
{
    assert(0x00000100u32 | 0x00001000u32 | 0x00000200u32 == 0x1300u32) by (bit_vector);
}

} // verus!
