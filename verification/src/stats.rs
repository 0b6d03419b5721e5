use vstd::prelude::*;

verus! {

/// The positions `(first, end)` of the values that make the median of a
/// sorted list of `len` values: the one in the middle where `len` is odd,
/// the two about the middle where it is even.
pub open spec fn median_window(len: nat) -> (nat, nat) {
    (((len - 1) / 2) as nat, len / 2 + 1)
}

/// The half-open range of positions whose mean is the median of a sorted
/// list of `len` values: it lies in the list, as far from its start as from
/// its end, and holds one value or two. An empty list has no median.
pub fn median_positions(len: usize) -> (window: (usize, usize))
    requires
        len >= 1,
    ensures
        (window.0 as nat, window.1 as nat) == median_window(len as nat),
        window.0 < window.1 <= len,
        window.0 + window.1 == len,
        window.1 - window.0 == (if len % 2 == 1 {
            1int
        } else {
            2int
        }),
{
    let middle = len / 2;
    if len % 2 == 1 {
        (middle, middle + 1)
    } else {
        (middle - 1, middle + 1)
    }
}

} // verus!
