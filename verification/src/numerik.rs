use vstd::prelude::*;

verus! {

/// Number of readings averaged at index `i` by a moving average of width `window`:
/// all readings so far while fewer than `window` exist, `window` afterwards.
pub open spec fn window_len(i: int, window: int) -> int {
    if i + 1 < window {
        i + 1
    } else {
        window
    }
}

/// First index of the moving-average window that ends at index `i`.
pub open spec fn window_start(i: int, window: int) -> int {
    i + 1 - window_len(i, window)
}

/// The window of the moving average at index `i`: the readings `start..=i`, where
/// `len = i + 1 - start` is both their number and the divisor of their sum.
pub fn window_bounds(i: usize, window: usize) -> (r: (usize, usize))
    requires
        window > 0,
        i < usize::MAX,
    ensures
        r.0 == window_start(i as int, window as int),
        r.1 == window_len(i as int, window as int),
        r.0 + r.1 == i + 1,
        r.1 <= window,
        r.1 <= i + 1,
        r.1 == window || r.1 == i + 1,
        i + 1 >= window ==> r.1 == window && r.0 == i + 1 - window,
        i + 1 < window ==> r.0 == 0,
{
    if i + 1 < window {
        (0, i + 1)
    } else {
        (i + 1 - window, window)
    }
}

/// A moving-average window holds the `min(i + 1, window)` most recent readings up to
/// index `i`: it is never empty, ends at `i`, starts at the first reading until
/// `window` readings exist, and from then on holds exactly `window` readings and
/// slides by one reading per step.
pub proof fn lemma_window_slides(i: int, window: int)
    requires
        window > 0,
        i >= 0,
    ensures
        1 <= window_len(i, window) <= window,
        0 <= window_start(i, window) <= i,
        window_start(i, window) + window_len(i, window) == i + 1,
        i + 1 < window ==> window_start(i, window) == 0,
        i + 1 >= window ==> window_start(i + 1, window) == window_start(i, window) + 1,
        window_len(i + 1, window) >= window_len(i, window),
        window_len(i, window) == window || window_len(i, window) == i + 1,
        window_len(i, window) <= i + 1,
        i + 1 >= window ==> window_len(i, window) == window,
        i + 1 >= window ==> window_start(i, window) == i + 1 - window,
{
}

} // verus!
