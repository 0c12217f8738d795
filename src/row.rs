//! Expand and collapse state of one diary row.
use vstd::prelude::*;

verus! {

/// Whether a row's detail line (large image and action button) is shown.
pub struct RowState {
    pub expanded: bool,
}

/// The state after one click on the row.
pub open spec fn toggled(s: RowState) -> RowState {
    RowState { expanded: !s.expanded }
}

impl RowState {
    /// A freshly drawn row: its detail line is hidden.
    pub fn new() -> (r: RowState)
        ensures
            !r.expanded,
    {
        RowState { expanded: false }
    }

    /// A click on the row flips whether its detail line is shown.
    pub fn toggle(&mut self)
        ensures
            *final(self) == toggled(*old(self)),
    {
        self.expanded = !self.expanded;
    }

    /// Whether the detail line is hidden.
    pub fn detail_hidden(&self) -> (r: bool)
        ensures
            r == !self.expanded,
    {
        !self.expanded
    }
}

/// Two clicks on a row give back the state it had: a hidden detail line is
/// hidden again.
pub proof fn toggle_twice_restores(s: RowState)
    ensures
        toggled(toggled(s)) == s,
        !s.expanded ==> !toggled(toggled(s)).expanded,
{
}

} // verus!
