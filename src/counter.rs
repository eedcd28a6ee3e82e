//! The request counter.

use vstd::prelude::*;
use std::sync::atomic::{AtomicUsize, Ordering};

verus! {

/// The count that follows `v`; the count wraps to zero past `usize::MAX`.
pub open spec fn next_count(v: usize) -> usize {
    if v == usize::MAX {
        0
    } else {
        (v + 1) as usize
    }
}

/// The count reached from `initial` after `k` increments that take effect one
/// after another.
pub open spec fn count_after(initial: usize, k: nat) -> usize
    decreases k,
{
    if k == 0 {
        initial
    } else {
        next_count(count_after(initial, (k - 1) as nat))
    }
}

/// A counter of handled requests, shared by every concurrent handler.
///
/// Each increment is a single atomic read-modify-write, so no two callers
/// ever observe the same earlier value.
pub struct RequestCounter {
    count: AtomicUsize,
}

impl RequestCounter {
    /// A counter whose first increment reports `initial`.
    pub fn new(initial: usize) -> (r: RequestCounter) {
        RequestCounter { count: AtomicUsize::new(initial) }
    }

    /// Adds one to the counter and returns the value it held before.
    ///
    /// Other handlers may increment the counter at any moment, so the value
    /// returned is whatever the counter held when this increment took effect.
    pub fn fetch_and_increment(&self) -> (r: usize) {
        self.count.fetch_add(1, Ordering::Relaxed)
    }
}

} // verus!
