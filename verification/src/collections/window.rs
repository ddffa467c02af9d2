use std::ops::Range;

use vstd::prelude::*;

verus! {

/// `end + overscan`, saturating at `usize::MAX`.
pub open spec fn saturated_end(end: usize, overscan: usize) -> int {
    if end + overscan > usize::MAX {
        usize::MAX as int
    } else {
        end + overscan
    }
}

/// Widens the index range `start..end` by `overscan` items on each side and
/// clips it to `0..count`: the start moves back by `overscan`, stopping at
/// zero, and the end moves forward by `overscan`, saturating, then stops at
/// `count`.
pub fn overscan_range(start: usize, end: usize, overscan: usize, count: usize) -> (range: Range<
    usize,
>)
    ensures
        range.start == (if start >= overscan {
            start - overscan
        } else {
            0
        }),
        range.end == (if saturated_end(end, overscan) < count {
            saturated_end(end, overscan)
        } else {
            count as int
        }),
{
    let first = if start >= overscan {
        start - overscan
    } else {
        0
    };
    let widened = if end > usize::MAX - overscan {
        usize::MAX
    } else {
        end + overscan
    };
    let last = if widened < count {
        widened
    } else {
        count
    };
    first..last
}

} // verus!
