//! The failures that the cache reports to its callers.

use vstd::prelude::*;

verus! {

/// Why a region was refused or a lookup failed.
#[derive(Clone, Copy, Debug, PartialEq, Eq, Structural)]
pub enum CacheError {
    /// A region was asked for whose extent is not positive on every axis.
    InvalidExtent { sx: i32, sy: i32, sz: i32 },
    /// The buffer handed over does not hold exactly one value per sample of
    /// the region.
    BufferLength { expected: u128, actual: usize },
    /// A coordinate outside the cached region was looked up. The accepted
    /// coordinates are `x_min <= x < x_max`, and likewise for `y` and `z`.
    OutOfRange {
        x_min: i64,
        x_max: i64,
        y_min: i64,
        y_max: i64,
        z_min: i64,
        z_max: i64,
        x: i32,
        y: i32,
        z: i32,
    },
}

} // verus!
