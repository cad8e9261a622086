use std::ops::Range;
use vstd::prelude::*;

verus! {

/// `v` clamped to `lo..=hi`.
pub open spec fn clamp(v: int, lo: int, hi: int) -> int {
    if v < lo {
        lo
    } else if v > hi {
        hi
    } else {
        v
    }
}

/// `x` lies in `0..len`, and so does `x + offset`.
pub open spec fn stays_inside(x: int, offset: int, len: int) -> bool {
    0 <= x < len && 0 <= x + offset < len
}

/// The range of the values `x` for which `x + offset` lies in `0..len`.
pub fn offset_range(offset: isize, len: usize) -> (r: Range<usize>)
    requires
        len <= isize::MAX,
        offset > isize::MIN,
        len - offset <= isize::MAX,
    ensures
        r.start == clamp(-offset, 0, len as int),
        r.end == clamp(len - offset, 0, len as int),
        forall|x: int| r.start <= x < r.end <==> #[trigger] stays_inside(x, offset as int, len as int),
{
    let n = len as isize;
    let neg = -offset;
    let start = if neg < 0 {
        0
    } else if neg > n {
        n
    } else {
        neg
    };
    let rest = n - offset;
    let end = if rest < 0 {
        0
    } else if rest > n {
        n
    } else {
        rest
    };
    (start as usize)..(end as usize)
}

} // verus!
