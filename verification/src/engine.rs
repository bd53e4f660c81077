//! The plain values exchanged with the generation engine.
//!
//! The engine itself is reached from outside this library. What the library
//! decides is which arguments each call of the engine gets; the types here
//! carry those arguments, and the buffer of a bulk query comes back as a
//! `Vec<BiomeID>`.

use vstd::prelude::*;

verus! {

/// The tag of a biome, as the engine numbers them.
pub type BiomeID = i32;

/// The tag of a dimension, as the engine numbers them.
pub type Dimension = i32;

/// The tag of a game version, as the engine numbers them.
pub type MCVersion = u32;

/// Arguments of the call that sets the engine's generator up.
#[derive(Clone, Copy, Debug, PartialEq, Eq, Structural)]
pub struct GeneratorSetup {
    pub version: i32,
    pub flags: u32,
}

/// Arguments of the call that applies a seed to the engine's generator.
#[derive(Clone, Copy, Debug, PartialEq, Eq, Structural)]
pub struct SeedApplication {
    pub dim: Dimension,
    pub seed: u64,
}

/// Arguments of the call that asks the engine for the biome at one
/// coordinate.
#[derive(Clone, Copy, Debug, PartialEq, Eq, Structural)]
pub struct PointQuery {
    pub scale: i32,
    pub x: i32,
    pub y: i32,
    pub z: i32,
}

} // verus!
