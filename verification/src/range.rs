//! Axis-aligned regions of sample coordinates and their row-major layout.

use vstd::prelude::*;
use vstd::arithmetic::div_mod::{
    lemma_div_pos_is_pos, lemma_fundamental_div_mod, lemma_fundamental_div_mod_converse,
    lemma_mod_bound,
};
use crate::error::CacheError;
use crate::scaling::CoordScaling;

verus! {

/// Position of the sample with relative coordinates `(a, b, c)` in a dense
/// buffer whose rows have `sx` samples and whose planes have `sz` rows:
/// `c` selects the plane, `b` the row and `a` the sample in the row.
pub open spec fn row_major(sx: int, sz: int, a: int, b: int, c: int) -> int {
    c * sx * sz + b * sx + a
}

/// A row-major position lies inside the buffer.
pub proof fn lemma_row_major_bound(sx: int, sy: int, sz: int, a: int, b: int, c: int)
    by (nonlinear_arith)
    requires
        0 <= a < sx,
        0 <= b < sz,
        0 <= c < sy,
    ensures
        0 <= row_major(sx, sz, a, b, c) < sx * sy * sz,
{
    assert(b * sx + a < sz * sx);
    assert(c * sx * sz <= (sy - 1) * sx * sz);
    assert((sy - 1) * sx * sz + sz * sx == sx * sy * sz);
}

/// A row-major position determines the three relative coordinates.
pub proof fn lemma_row_major_unique(sx: int, sz: int, a: int, b: int, c: int)
    requires
        0 <= a < sx,
        0 <= b < sz,
    ensures
        a == row_major(sx, sz, a, b, c) % sx,
        b == (row_major(sx, sz, a, b, c) / sx) % sz,
        c == (row_major(sx, sz, a, b, c) / sx) / sz,
{
    let k = row_major(sx, sz, a, b, c);
    let q = c * sz + b;
    assert(k == q * sx + a) by (nonlinear_arith)
        requires
            k == c * sx * sz + b * sx + a,
            q == c * sz + b,
    ;
    lemma_fundamental_div_mod_converse(k, sx, q, a);
    lemma_fundamental_div_mod_converse(q, sz, c, b);
}

/// Every position inside the buffer is the row-major position of relative
/// coordinates inside the region.
pub proof fn lemma_row_major_onto(sx: int, sy: int, sz: int, k: int)
    requires
        sx > 0,
        sy > 0,
        sz > 0,
        0 <= k < sx * sy * sz,
    ensures
        0 <= k % sx < sx,
        0 <= (k / sx) % sz < sz,
        0 <= (k / sx) / sz < sy,
        row_major(sx, sz, k % sx, (k / sx) % sz, (k / sx) / sz) == k,
{
    let a = k % sx;
    let q = k / sx;
    let b = q % sz;
    let c = q / sz;
    lemma_mod_bound(k, sx);
    lemma_div_pos_is_pos(k, sx);
    lemma_fundamental_div_mod(k, sx);
    lemma_mod_bound(q, sz);
    lemma_div_pos_is_pos(q, sz);
    lemma_fundamental_div_mod(q, sz);
    assert(c < sy && c * sx * sz + b * sx + a == k) by (nonlinear_arith)
        requires
            sx > 0,
            sz > 0,
            0 <= a < sx,
            0 <= b < sz,
            0 <= c,
            k == sx * q + a,
            q == sz * c + b,
            k < sx * sy * sz,
    ;
}

/// The mathematical model of a region: the scale at which it is sampled, its
/// origin `(x, y, z)` and its extent `(sx, sy, sz)`.
pub struct RangeView {
    pub scale: CoordScaling,
    pub x: int,
    pub y: int,
    pub z: int,
    pub sx: int,
    pub sy: int,
    pub sz: int,
}

impl RangeView {
    /// A region is valid when its extent is positive on every axis.
    pub open spec fn wf(self) -> bool {
        self.sx > 0 && self.sy > 0 && self.sz > 0
    }

    /// The number of samples in the region.
    pub open spec fn volume(self) -> int {
        self.sx * self.sy * self.sz
    }

    /// Whether `(x, y, z)` lies inside the region.
    pub open spec fn contains(self, x: int, y: int, z: int) -> bool {
        &&& self.x <= x < self.x + self.sx
        &&& self.y <= y < self.y + self.sy
        &&& self.z <= z < self.z + self.sz
    }

    /// Position of `(x, y, z)` in the dense buffer of the region: `y` varies
    /// slowest, then `z`, then `x`.
    pub open spec fn offset(self, x: int, y: int, z: int) -> int {
        (y - self.y) * self.sx * self.sz + (z - self.z) * self.sx + (x - self.x)
    }

    /// The coordinate stored at position `k` of the dense buffer.
    pub open spec fn coordinate_at(self, k: int) -> (int, int, int) {
        (self.x + k % self.sx, self.y + (k / self.sx) / self.sz, self.z + (k / self.sx) % self.sz)
    }

    /// The failure returned for a lookup of `(x, y, z)` outside the region: it
    /// carries the accepted bounds of every axis and the coordinate refused.
    pub open spec fn out_of_range(self, x: i32, y: i32, z: i32) -> CacheError {
        CacheError::OutOfRange {
            x_min: self.x as i64,
            x_max: (self.x + self.sx) as i64,
            y_min: self.y as i64,
            y_max: (self.y + self.sy) as i64,
            z_min: self.z as i64,
            z_max: (self.z + self.sz) as i64,
            x,
            y,
            z,
        }
    }
}

/// The offset of a coordinate inside a valid region is a position of the
/// region's buffer.
pub proof fn lemma_offset_in_buffer(r: RangeView, x: int, y: int, z: int)
    requires
        r.wf(),
        r.contains(x, y, z),
    ensures
        0 <= r.offset(x, y, z) < r.volume(),
{
    lemma_row_major_bound(r.sx, r.sy, r.sz, x - r.x, z - r.z, y - r.y);
}

/// The offset is injective over the region: two coordinates inside it that
/// have the same offset are the same coordinate.
pub proof fn lemma_offset_injective(
    r: RangeView,
    x1: int,
    y1: int,
    z1: int,
    x2: int,
    y2: int,
    z2: int,
)
    requires
        r.wf(),
        r.contains(x1, y1, z1),
        r.contains(x2, y2, z2),
        r.offset(x1, y1, z1) == r.offset(x2, y2, z2),
    ensures
        x1 == x2,
        y1 == y2,
        z1 == z2,
{
    lemma_row_major_unique(r.sx, r.sz, x1 - r.x, z1 - r.z, y1 - r.y);
    lemma_row_major_unique(r.sx, r.sz, x2 - r.x, z2 - r.z, y2 - r.y);
}

/// The offset is onto the buffer: every position `k` of a valid region's
/// buffer is the offset of a coordinate inside the region, namely of
/// `coordinate_at(k)`.
pub proof fn lemma_offset_onto(r: RangeView, k: int)
    requires
        r.wf(),
        0 <= k < r.volume(),
    ensures
        ({
            let (x, y, z) = r.coordinate_at(k);
            r.contains(x, y, z) && r.offset(x, y, z) == k
        }),
{
    lemma_row_major_onto(r.sx, r.sy, r.sz, k);
}

/// Offset and `coordinate_at` are inverse to each other, so each position of
/// the buffer is reached from exactly one coordinate of the region.
pub proof fn lemma_coordinate_at_offset(r: RangeView, x: int, y: int, z: int)
    requires
        r.wf(),
        r.contains(x, y, z),
    ensures
        r.coordinate_at(r.offset(x, y, z)) == (x, y, z),
{
    lemma_row_major_unique(r.sx, r.sz, x - r.x, z - r.z, y - r.y);
}

/// Whether an extent is positive on every axis.
pub open spec fn valid_extent(size: (i32, i32, i32)) -> bool {
    size.0 > 0 && size.1 > 0 && size.2 > 0
}

/// A valid region, in the form in which it is handed to the engine for a
/// bulk query: the scale, the origin and an extent that is positive on every
/// axis.
#[derive(Clone, Copy, Debug, PartialEq, Eq, Structural)]
pub struct Range {
    scale: CoordScaling,
    x: i32,
    y: i32,
    z: i32,
    sx: i32,
    sy: i32,
    sz: i32,
}

impl View for Range {
    type V = RangeView;

    closed spec fn view(&self) -> RangeView {
        RangeView {
            scale: self.scale,
            x: self.x as int,
            y: self.y as int,
            z: self.z as int,
            sx: self.sx as int,
            sy: self.sy as int,
            sz: self.sz as int,
        }
    }
}

impl Range {
    #[verifier::type_invariant]
    spec fn positive_extent(&self) -> bool {
        self.sx > 0 && self.sy > 0 && self.sz > 0
    }

    /// Describes the region with origin `range_start` and extent
    /// `range_size`, both as `(x, y, z)`, sampled at `scale`. An extent that
    /// is not positive on every axis is refused.
    pub fn new(scale: CoordScaling, range_start: (i32, i32, i32), range_size: (i32, i32, i32)) -> (r:
        Result<Range, CacheError>)
        ensures
            valid_extent(range_size) ==> r is Ok && r->Ok_0@ == (RangeView {
                scale,
                x: range_start.0 as int,
                y: range_start.1 as int,
                z: range_start.2 as int,
                sx: range_size.0 as int,
                sy: range_size.1 as int,
                sz: range_size.2 as int,
            }),
            !valid_extent(range_size) ==> r == Err::<Range, CacheError>(
                CacheError::InvalidExtent { sx: range_size.0, sy: range_size.1, sz: range_size.2 },
            ),
    {
        if range_size.0 > 0 && range_size.1 > 0 && range_size.2 > 0 {
            Ok(
                Range {
                    scale,
                    x: range_start.0,
                    y: range_start.1,
                    z: range_start.2,
                    sx: range_size.0,
                    sy: range_size.1,
                    sz: range_size.2,
                },
            )
        } else {
            Err(CacheError::InvalidExtent { sx: range_size.0, sy: range_size.1, sz: range_size.2 })
        }
    }

    /// The scale at which the region is sampled.
    pub fn scale(&self) -> (scale: CoordScaling)
        ensures
            scale == self@.scale,
    {
        self.scale
    }

    /// The origin of the region, as `(x, y, z)`.
    pub fn start(&self) -> (start: (i32, i32, i32))
        ensures
            start.0 == self@.x,
            start.1 == self@.y,
            start.2 == self@.z,
    {
        (self.x, self.y, self.z)
    }

    /// The extent of the region, as `(sx, sy, sz)`; it is positive on every
    /// axis.
    pub fn size(&self) -> (size: (i32, i32, i32))
        ensures
            self@.wf(),
            size.0 == self@.sx,
            size.1 == self@.sy,
            size.2 == self@.sz,
    {
        proof {
            use_type_invariant(self);
        }
        (self.sx, self.sy, self.sz)
    }

    /// The number of samples in the region, which is the length of its dense
    /// buffer.
    pub fn volume(&self) -> (volume: u128)
        ensures
            self@.wf(),
            volume == self@.volume(),
            volume > 0,
    {
        proof {
            use_type_invariant(self);
        }
        let sx = self.sx as u128;
        let sy = self.sy as u128;
        let sz = self.sz as u128;
        assert(0 < sx * sy <= 0x4000_0000_0000_0000 && 0 < sx * sy * sz
            <= 0x2000_0000_0000_0000_0000_0000) by (nonlinear_arith)
            requires
                0 < sx <= 0x8000_0000,
                0 < sy <= 0x8000_0000,
                0 < sz <= 0x8000_0000,
        ;
        sx * sy * sz
    }

    /// Whether `(x, y, z)` lies inside the region.
    pub fn contains(&self, x: i32, y: i32, z: i32) -> (inside: bool)
        ensures
            inside == self@.contains(x as int, y as int, z as int),
    {
        self.x <= x && (x as i64) < self.x as i64 + self.sx as i64 && self.y <= y && (y as i64)
            < self.y as i64 + self.sy as i64 && self.z <= z && (z as i64) < self.z as i64
            + self.sz as i64
    }

    /// Position of `(x, y, z)` in the dense buffer of the region, for a
    /// coordinate inside the region; `None` for one outside.
    pub fn offset(&self, x: i32, y: i32, z: i32) -> (k: Option<u128>)
        ensures
            match k {
                Some(k) => self@.contains(x as int, y as int, z as int) && k == self@.offset(
                    x as int,
                    y as int,
                    z as int,
                ) && k < self@.volume(),
                None => !self@.contains(x as int, y as int, z as int),
            },
    {
        if !self.contains(x, y, z) {
            return None;
        }
        proof {
            use_type_invariant(self);
        }
        let sx = self.sx as u128;
        let sz = self.sz as u128;
        let a = (x as i64 - self.x as i64) as u128;
        let b = (z as i64 - self.z as i64) as u128;
        let c = (y as i64 - self.y as i64) as u128;
        proof {
            lemma_row_major_bound(
                self.sx as int,
                self.sy as int,
                self.sz as int,
                a as int,
                b as int,
                c as int,
            );
        }
        assert(c * sx <= 0x4000_0000_0000_0000 && c * sx * sz <= 0x2000_0000_0000_0000_0000_0000
            && b * sx <= 0x4000_0000_0000_0000) by (nonlinear_arith)
            requires
                c <= 0x8000_0000,
                b <= 0x8000_0000,
                sx <= 0x8000_0000,
                sz <= 0x8000_0000,
        ;
        Some(c * sx * sz + b * sx + a)
    }
}

} // verus!
