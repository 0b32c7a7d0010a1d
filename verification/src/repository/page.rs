//! Pages of a listing.

use vstd::prelude::*;

verus! {

/// The part of `rows` that a page shows: after skipping `offset`, at most
/// `limit`.
pub open spec fn page<T>(rows: Seq<T>, limit: int, offset: int) -> Seq<T>
    recommends
        0 <= limit,
        0 <= offset,
{
    let from = if offset < rows.len() {
        offset
    } else {
        rows.len() as int
    };
    let to = if from + limit < rows.len() {
        from + limit
    } else {
        rows.len() as int
    };
    rows.subrange(from, to)
}

/// The places of `rows` that a page shows: from the first to before the
/// second.
pub fn page_bounds(len: usize, limit: i32, offset: i32) -> (r: (usize, usize))
    requires
        0 <= limit,
        0 <= offset,
    ensures
        r.0 <= r.1 <= len,
        r.0 == if offset < len {
            offset as int
        } else {
            len as int
        },
        r.1 == if r.0 + limit < len {
            r.0 + limit
        } else {
            len as int
        },
{
    let from: usize = if (offset as usize) < len {
        offset as usize
    } else {
        len
    };
    let to: usize = if (limit as usize) < len - from {
        from + limit as usize
    } else {
        len
    };
    (from, to)
}

} // verus!
