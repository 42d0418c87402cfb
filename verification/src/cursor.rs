//! The cursors that the system keeps ready.

use crate::win32::{make_int_resource, LPCWSTR, MAKEINTRESOURCE, WORD};
use vstd::prelude::*;

verus! {

/// Predefined cursor styles.
#[derive(Debug, Clone, Copy, PartialEq, Eq)]
pub enum EIDCursor {
    /// Standard arrow and small hourglass
    AppStarting,
    /// Standard arrow
    Arrow,
    /// Crosshair
    Cross,
    /// Hand
    Hand,
    /// Arrow and question mark
    Help,
    /// I-beam
    IBeam,
    /// Slashed circle
    No,
    /// Four-pointed arrow pointing north, south, east, and west
    SizeAll,
    /// Double-pointed arrow pointing northeast and southwest
    SizeNeSw,
    /// Double-pointed arrow pointing north and south
    SizeNS,
    /// Double-pointed arrow pointing northwest and southeast
    SizeNwSe,
    /// Double-pointed arrow pointing west and east
    SizeWE,
    /// Vertical arrow
    UpArrow,
    /// Hourglass
    Wait,
}

impl EIDCursor {
    /// The identifier under which the system keeps the cursor.
    pub open spec fn spec_id(self) -> WORD {
        match self {
            EIDCursor::Arrow => 32512,
            EIDCursor::IBeam => 32513,
            EIDCursor::Wait => 32514,
            EIDCursor::Cross => 32515,
            EIDCursor::UpArrow => 32516,
            EIDCursor::SizeNwSe => 32642,
            EIDCursor::SizeNeSw => 32643,
            EIDCursor::SizeWE => 32644,
            EIDCursor::SizeNS => 32645,
            EIDCursor::SizeAll => 32646,
            EIDCursor::No => 32648,
            EIDCursor::Hand => 32649,
            EIDCursor::AppStarting => 32650,
            EIDCursor::Help => 32651,
        }
    }

    /// The identifier under which the system keeps the cursor.
    #[verifier::when_used_as_spec(spec_id)]
    pub fn id(self) -> (r: WORD)
        ensures
            r == self.spec_id(),
    {
        match self {
            EIDCursor::Arrow => 32512,
            EIDCursor::IBeam => 32513,
            EIDCursor::Wait => 32514,
            EIDCursor::Cross => 32515,
            EIDCursor::UpArrow => 32516,
            EIDCursor::SizeNwSe => 32642,
            EIDCursor::SizeNeSw => 32643,
            EIDCursor::SizeWE => 32644,
            EIDCursor::SizeNS => 32645,
            EIDCursor::SizeAll => 32646,
            EIDCursor::No => 32648,
            EIDCursor::Hand => 32649,
            EIDCursor::AppStarting => 32650,
            EIDCursor::Help => 32651,
        }
    }

    /// The value that names the cursor to the call that loads it.
    pub fn resource(self) -> (r: LPCWSTR)
        ensures
            r == make_int_resource(self.spec_id()),
            r != 0,
    {
        MAKEINTRESOURCE(self.id())
    }

    /// No two cursors share an identifier.
    pub proof fn lemma_id_is_injective(self, other: EIDCursor)
        ensures
            self.spec_id() == other.spec_id() ==> self == other,
    {
    }
}

} // verus!
