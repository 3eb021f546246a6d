//! The coordinate of one batch within an entity's ordered record set.
use vstd::prelude::*;

verus! {

/// A page of records: `limit` records starting at the zero-based
/// `start_position`.
#[derive(Debug, Clone, Copy, PartialEq, Eq, Structural)]
pub struct PaginationOptions {
    /// The position from which to start retrieving records.
    pub start_position: u64,
    /// Maximum number of records to retrieve.
    pub limit: u64,
}

impl PaginationOptions {
    pub fn new(start_position: u64, limit: u64) -> (options: PaginationOptions)
        ensures
            options.start_position == start_position,
            options.limit == limit,
    {
        PaginationOptions { start_position, limit }
    }

    /// Whether the page can hold a record: its limit is not zero.
    pub open spec fn well_formed(self) -> bool {
        self.limit > 0
    }

    /// The position just past the last record of the page.
    pub open spec fn end(self) -> int {
        self.start_position + self.limit
    }

    /// Whether the record at position `i` belongs to the page.
    pub open spec fn covers(self, i: int) -> bool {
        self.start_position <= i < self.end()
    }
}

} // verus!
