//! Decisions behind the sortable column headers of the tables.

use vstd::prelude::*;

verus! {

/// The sort-direction arrow shown next to the header of the sorting column.
#[derive(Clone, Copy, Debug, PartialEq, Eq, Structural)]
pub enum SortIndicator {
    /// Sorted in ascending order.
    ArrowUp,
    /// Sorted in descending order.
    ArrowDown,
}

/// The arrow shown next to a column header: none when the table is not sorted by
/// that column, up when it is sorted ascending, down otherwise.
pub fn sort_indicator(is_active: bool, ascending: bool) -> (indicator: Option<SortIndicator>)
    ensures
        indicator == (if !is_active {
            None
        } else if ascending {
            Some(SortIndicator::ArrowUp)
        } else {
            Some(SortIndicator::ArrowDown)
        }),
{
    if !is_active {
        None
    } else if ascending {
        Some(SortIndicator::ArrowUp)
    } else {
        Some(SortIndicator::ArrowDown)
    }
}

/// Records a click on the header of column `col`: when the header was clicked,
/// `clicked` becomes `Some(col)` so the caller can toggle the sort state; otherwise it
/// is left as it was.
pub fn record_header_click(clicked: &mut Option<usize>, header_clicked: bool, col: usize)
    ensures
        *final(clicked) == (if header_clicked {
            Some(col)
        } else {
            *old(clicked)
        }),
{
    if header_clicked {
        *clicked = Some(col);
    }
}

} // verus!
