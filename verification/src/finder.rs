//! The handle that holds the configuration of the engine's generator.

use vstd::prelude::*;
use crate::engine::{Dimension, GeneratorSetup, MCVersion, PointQuery, SeedApplication};
use crate::scaling::CoordScaling;

verus! {

/// The 64 bits of a seed, read as an unsigned number: the form in which the
/// engine takes a seed.
pub open spec fn seed_bits(seed: i64) -> int {
    if seed >= 0 {
        seed as int
    } else {
        seed + 0x1_0000_0000_0000_0000
    }
}

/// The 32 bits of a version tag, read as a signed number: the form in which
/// the engine takes a version.
pub open spec fn version_bits(version: MCVersion) -> int {
    if version <= 0x7fff_ffff {
        version as int
    } else {
        version - 0x1_0000_0000
    }
}

/// The mathematical model of a handle: the configuration it holds.
pub struct FinderView {
    pub seed: i64,
    pub version: MCVersion,
    pub dim: Dimension,
}

impl FinderView {
    /// The arguments with which the engine's generator is set up for this
    /// configuration: the version, and no flags.
    pub open spec fn setup(self) -> GeneratorSetup {
        GeneratorSetup { version: version_bits(self.version) as i32, flags: 0 }
    }

    /// The arguments with which the seed of this configuration is applied.
    pub open spec fn seeding(self) -> SeedApplication {
        SeedApplication { dim: self.dim, seed: seed_bits(self.seed) as u64 }
    }
}

/// The query for the biome at `(x, y, z)`: the coordinate as it is, at block
/// scale.
pub open spec fn point_query_at(x: i32, y: i32, z: i32) -> PointQuery {
    PointQuery { scale: CoordScaling::Block.ratio() as i32, x, y, z }
}

/// One configured generator of the engine: a game version, a dimension and a
/// seed. The version is fixed when the handle is made; seed and dimension
/// can be applied anew.
#[derive(Clone, Copy, Debug, PartialEq, Eq, Structural)]
pub struct CubiomesFinder {
    seed: i64,
    version: MCVersion,
    dim: Dimension,
}

impl View for CubiomesFinder {
    type V = FinderView;

    closed spec fn view(&self) -> FinderView {
        FinderView { seed: self.seed, version: self.version, dim: self.dim }
    }
}

impl CubiomesFinder {
    /// A handle for `version`, with `dim` and `seed` applied.
    pub fn new(seed: i64, version: MCVersion, dim: Dimension) -> (finder: Self)
        ensures
            finder@ == (FinderView { seed, version, dim }),
    {
        CubiomesFinder { seed, version, dim }
    }

    /// Applies a new seed and dimension; the version stays.
    pub fn apply_seed(&mut self, seed: i64, dim: Dimension)
        ensures
            final(self)@ == (FinderView { seed, version: old(self)@.version, dim }),
    {
        self.seed = seed;
        self.dim = dim;
    }

    /// The seed last applied.
    pub fn seed(&self) -> (seed: i64)
        ensures
            seed == self@.seed,
    {
        self.seed
    }

    /// The version the handle was made for.
    pub fn version(&self) -> (version: MCVersion)
        ensures
            version == self@.version,
    {
        self.version
    }

    /// The dimension last applied.
    pub fn dimension(&self) -> (dim: Dimension)
        ensures
            dim == self@.dim,
    {
        self.dim
    }

    /// The arguments with which the engine's generator is to be set up.
    pub fn setup(&self) -> (call: GeneratorSetup)
        ensures
            call == self@.setup(),
            call.version == version_bits(self@.version),
            call.flags == 0,
    {
        let version = self.version;
        let bits = #[verifier::truncate] (version as i32);
        assert(version <= 0x7fff_ffff ==> bits == version) by (bit_vector)
            requires
                bits == version as i32,
        ;
        assert(version > 0x7fff_ffff ==> bits == version - 0x1_0000_0000) by (bit_vector)
            requires
                bits == version as i32,
        ;
        GeneratorSetup { version: bits, flags: 0 }
    }

    /// The arguments with which the seed is to be applied to the engine's
    /// generator, after the set-up and after every `apply_seed`.
    pub fn seeding(&self) -> (call: SeedApplication)
        ensures
            call == self@.seeding(),
            call.dim == self@.dim,
            call.seed == seed_bits(self@.seed),
    {
        let seed = self.seed;
        let bits = #[verifier::truncate] (seed as u64);
        assert(seed >= 0 ==> bits == seed) by (bit_vector)
            requires
                bits == seed as u64,
        ;
        assert(seed < 0 ==> bits == seed + 0x1_0000_0000_0000_0000) by (bit_vector)
            requires
                bits == seed as u64,
        ;
        SeedApplication { dim: self.dim, seed: bits }
    }

    /// The query to put to the engine for the biome at `(x, y, z)`: a point
    /// is always looked up at block scale.
    pub fn point_query(&self, x: i32, y: i32, z: i32) -> (query: PointQuery)
        ensures
            query == point_query_at(x, y, z),
            query.scale == 1,
    {
        PointQuery { scale: CoordScaling::Block.value(), x, y, z }
    }
}

} // verus!
