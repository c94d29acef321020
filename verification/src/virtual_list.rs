//! The window of rows a virtual scroll view keeps alive. The rendering layer
//! measures the rows and compares them with the visible band (the viewport
//! extended by an overdraw margin); this module turns those comparisons into
//! the range of rows to lay out and paint.
use vstd::prelude::*;

verus! {

/// `(start, end)` is the visible window for the given rows: `start` is the
/// first row not ending above the band, and `end` the first row from `start`
/// on that starts below it.
pub open spec fn is_visible_window(
    ends_above: Seq<bool>,
    starts_below: Seq<bool>,
    start: int,
    end: int,
) -> bool {
    &&& 0 <= start <= end <= ends_above.len()
    &&& forall|i: int| 0 <= i < start ==> ends_above[i]
    &&& start < ends_above.len() ==> !ends_above[start]
    &&& forall|i: int| start <= i < end ==> !starts_below[i]
    &&& end < starts_below.len() ==> starts_below[end]
}

/// The rows to keep alive, as the half-open range `(start, end)`.
/// `ends_above[i]` tells that row `i` ends above the visible band and
/// `starts_below[i]` that it starts below it.
pub fn visible_range_from_rows(ends_above: &[bool], starts_below: &[bool]) -> (r: (usize, usize))
    requires
        ends_above@.len() == starts_below@.len(),
    ensures
        is_visible_window(ends_above@, starts_below@, r.0 as int, r.1 as int),
{
    let count = ends_above.len();
    let mut start: usize = 0;
    while start < count
        invariant
            start <= count,
            count == ends_above@.len(),
            forall|i: int| 0 <= i < start ==> ends_above@[i],
        ensures
            start <= count,
            forall|i: int| 0 <= i < start ==> ends_above@[i],
            start < count ==> !ends_above@[start as int],
        decreases count - start,
    {
        if !ends_above[start] {
            break;
        }
        start = start + 1;
    }
    let mut end = start;
    while end < count
        invariant
            start <= end <= count,
            count == ends_above@.len(),
            count == starts_below@.len(),
            forall|i: int| start <= i < end ==> !starts_below@[i],
        ensures
            start <= end <= count,
            forall|i: int| start <= i < end ==> !starts_below@[i],
            end < count ==> starts_below@[end as int],
        decreases count - end,
    {
        if starts_below[end] {
            break;
        }
        end = end + 1;
    }
    (start, end)
}

} // verus!
