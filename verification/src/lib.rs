//! The pure core of a small Win32 windowing program: everything that it decides
//! and computes, kept apart from the calls into the operating system and proved
//! with Verus.
//!
//! * [`win32`] holds the vocabulary: integer types, constants and structures,
//!   with handles and pointers as plain addresses.
//! * [`utf16`] and [`decimal`] turn text into code units and back, and numbers
//!   into digits.
//! * [`error`] gives the last-error code its text.
//! * [`cursor`] names the cursors that the system keeps ready.
//! * [`calls`] reads the raw results of the windowing calls and puts together
//!   what they are handed.
//! * [`procedure`] is the window procedure, as a machine that is told what
//!   happened and says what to do next.
//! * [`message_loop`] decides each turn of the message loop.

#![allow(non_snake_case)]
#![allow(non_camel_case_types)]

pub mod calls;
pub mod cursor;
pub mod decimal;
pub mod error;
pub mod message_loop;
pub mod procedure;
pub mod std_specs;
pub mod utf16;
pub mod win32;
