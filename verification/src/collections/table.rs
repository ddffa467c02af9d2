use vstd::prelude::*;

use super::identity::ItemId;

verus! {

/// Sort direction requested by table headers.
#[derive(Debug, Clone, Copy, PartialEq, Eq, Structural)]
pub enum SortDirection {
    /// Ascending sort.
    Ascending,
    /// Descending sort.
    Descending,
}

/// Table sort intent.
#[derive(Debug, Clone, Copy, PartialEq, Eq, Structural)]
pub struct TableSort {
    /// Column to sort by.
    pub column: ItemId,
    /// Direction.
    pub direction: SortDirection,
}

} // verus!
