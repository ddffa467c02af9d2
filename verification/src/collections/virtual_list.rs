use vstd::prelude::*;

verus! {

/// Row selection behavior of a virtual list.
#[derive(Debug, Clone, Copy, PartialEq, Eq, Structural)]
pub enum VirtualListSelectionMode {
    /// Plain selection only; modifier keys do not retain other rows.
    Single,
    /// Control/Super toggles and Shift extends from the retained anchor.
    Multiple,
}

impl Default for VirtualListSelectionMode {
    /// Single selection.
    fn default() -> (mode: Self)
        ensures
            mode == VirtualListSelectionMode::Single,
    {
        VirtualListSelectionMode::Single
    }
}

/// Presentation returned by the callback for one materialized list row.
#[derive(Debug, Clone, PartialEq, Eq)]
pub struct VirtualListRow {
    /// Visible and accessible row label.
    pub label: String,
}

impl VirtualListRow {
    /// Creates a materialized row presentation.
    pub fn new(label: &str) -> (row: Self)
        ensures
            row.label@ == label@,
    {
        VirtualListRow { label: label.to_owned() }
    }
}

} // verus!
