//! The cache: the biome values of one region, looked up by coordinate.

use vstd::prelude::*;
use crate::engine::BiomeID;
use crate::error::CacheError;
use crate::range::{lemma_offset_in_buffer, Range, RangeView};

verus! {

/// The mathematical model of a cache: the region it covers and the dense
/// buffer of that region's biome values.
pub struct CacheView {
    pub range: RangeView,
    pub biomes: Seq<BiomeID>,
}

impl CacheView {
    /// The region is valid and the buffer holds exactly one value per sample.
    pub open spec fn wf(self) -> bool {
        self.range.wf() && self.biomes.len() == self.range.volume()
    }

    /// What a lookup of `(x, y, z)` yields: the buffer element at the
    /// coordinate's offset when the coordinate lies inside the region, the
    /// out-of-range failure otherwise.
    pub open spec fn lookup(self, x: i32, y: i32, z: i32) -> Result<BiomeID, CacheError> {
        if self.range.contains(x as int, y as int, z as int) {
            Ok(self.biomes[self.range.offset(x as int, y as int, z as int)])
        } else {
            Err(self.range.out_of_range(x, y, z))
        }
    }
}

/// Inside the region a lookup succeeds, and it reads a position that the
/// buffer has.
pub proof fn lemma_lookup_inside(c: CacheView, x: i32, y: i32, z: i32)
    requires
        c.wf(),
        c.range.contains(x as int, y as int, z as int),
    ensures
        0 <= c.range.offset(x as int, y as int, z as int) < c.biomes.len(),
        c.lookup(x, y, z) == Ok::<BiomeID, CacheError>(
            c.biomes[c.range.offset(x as int, y as int, z as int)],
        ),
{
    lemma_offset_in_buffer(c.range, x as int, y as int, z as int);
}

/// A lookup and the bounds test always agree: the lookup succeeds exactly
/// for the coordinates inside the region, and outside it fails with the
/// out-of-range failure that names the region's bounds and the coordinate.
pub proof fn lemma_lookup_agrees_with_bounds(c: CacheView, x: i32, y: i32, z: i32)
    ensures
        c.lookup(x, y, z) is Ok <==> c.range.contains(x as int, y as int, z as int),
        !c.range.contains(x as int, y as int, z as int) ==> c.lookup(x, y, z) == Err::<
            BiomeID,
            CacheError,
        >(c.range.out_of_range(x, y, z)),
        c.lookup(x, y, z) is Err ==> c.lookup(x, y, z)->Err_0 is OutOfRange,
{
}

/// A lookup depends on nothing but the region, the buffer and the coordinate:
/// two caches with the same region and the same buffer answer every lookup
/// alike, so a cache answers a repeated lookup as it answered the first.
pub proof fn lemma_lookup_repeatable(a: BiomeCache, b: BiomeCache, x: i32, y: i32, z: i32)
    requires
        a@ == b@,
    ensures
        a@.lookup(x, y, z) == b@.lookup(x, y, z),
{
}

/// A cache of the biome values of one region. It is filled once, when it is
/// made, and never changes afterwards.
#[derive(Debug)]
pub struct BiomeCache {
    range: Range,
    biomes: Vec<BiomeID>,
}

impl View for BiomeCache {
    type V = CacheView;

    closed spec fn view(&self) -> CacheView {
        CacheView { range: self.range@, biomes: self.biomes@ }
    }
}

impl BiomeCache {
    #[verifier::type_invariant]
    spec fn filled(&self) -> bool {
        self.biomes@.len() == self.range@.volume()
    }

    /// Takes the buffer that the engine filled for `range` and keeps it as it
    /// is. A buffer that does not hold exactly one value per sample of the
    /// region is refused.
    pub fn new(range: Range, biomes: Vec<BiomeID>) -> (r: Result<BiomeCache, CacheError>)
        ensures
            biomes@.len() == range@.volume() ==> r is Ok && r->Ok_0@ == (CacheView {
                range: range@,
                biomes: biomes@,
            }) && r->Ok_0@.wf(),
            biomes@.len() != range@.volume() ==> r == Err::<BiomeCache, CacheError>(
                CacheError::BufferLength {
                    expected: range@.volume() as u128,
                    actual: biomes@.len() as usize,
                },
            ),
    {
        let expected = range.volume();
        let actual = biomes.len();
        if actual as u128 == expected {
            Ok(BiomeCache { range, biomes })
        } else {
            Err(CacheError::BufferLength { expected, actual })
        }
    }

    /// The region that the cache covers.
    pub fn range(&self) -> (range: Range)
        ensures
            range@ == self@.range,
    {
        self.range
    }

    /// The cached values, in the order in which the engine produced them.
    pub fn biomes(&self) -> (biomes: &[BiomeID])
        ensures
            biomes@ == self@.biomes,
    {
        self.biomes.as_slice()
    }

    /// Whether `(x, y, z)` lies inside the cached region.
    pub fn is_in_bounds(&self, x: i32, y: i32, z: i32) -> (inside: bool)
        ensures
            inside == self@.range.contains(x as int, y as int, z as int),
            inside == (self@.lookup(x, y, z) is Ok),
    {
        self.range.contains(x, y, z)
    }

    /// The cached biome at `(x, y, z)`, or the out-of-range failure for a
    /// coordinate that the cache does not cover.
    pub fn get_biome_at(&self, x: i32, y: i32, z: i32) -> (r: Result<BiomeID, CacheError>)
        ensures
            self@.wf(),
            r == self@.lookup(x, y, z),
    {
        proof {
            use_type_invariant(self);
        }
        match self.range.offset(x, y, z) {
            Some(k) => {
                assert(k < self.biomes.len());
                Ok(self.biomes[k as usize])
            },
            None => {
                let start = self.range.start();
                let size = self.range.size();
                Err(
                    CacheError::OutOfRange {
                        x_min: start.0 as i64,
                        x_max: start.0 as i64 + size.0 as i64,
                        y_min: start.1 as i64,
                        y_max: start.1 as i64 + size.1 as i64,
                        z_min: start.2 as i64,
                        z_max: start.2 as i64 + size.2 as i64,
                        x,
                        y,
                        z,
                    },
                )
            },
        }
    }
}

} // verus!
