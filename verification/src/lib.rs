//! A bounded spatial cache of biome values in front of a world-generation
//! engine, together with the plain-value requests that drive the engine.

pub mod cache;
pub mod engine;
pub mod error;
pub mod finder;
pub mod ignore_macros;
pub mod range;
pub mod scaling;
