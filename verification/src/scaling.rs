//! Sampling granularity shared by point queries and region queries.

use vstd::prelude::*;

verus! {

/// The ratio of world coordinate units to one sample of the engine.
#[derive(Clone, Copy, Debug, PartialEq, Eq, Structural)]
pub enum CoordScaling {
    /// 1:1 block scaling
    Block,
    /// 1:4 scaling
    Quad,
    /// 1:16 chunk scaling
    Chunk,
    /// 1:64 scaling
    QuadChunk,
    /// 1:256 scaling (overworld only)
    Region,
}

impl CoordScaling {
    /// The ratio as a mathematical integer.
    pub open spec fn ratio(self) -> int {
        match self {
            CoordScaling::Block => 1,
            CoordScaling::Quad => 4,
            CoordScaling::Chunk => 16,
            CoordScaling::QuadChunk => 64,
            CoordScaling::Region => 256,
        }
    }

    /// The number by which world coordinates are divided before they reach
    /// the engine.
    pub fn value(&self) -> (ratio: i32)
        ensures
            ratio == self.ratio(),
    {
        match self {
            CoordScaling::Block => 1,
            CoordScaling::Quad => 4,
            CoordScaling::Chunk => 16,
            CoordScaling::QuadChunk => 64,
            CoordScaling::Region => 256,
        }
    }
}

/// Every scaling has one of the five fixed ratios, each a positive power of
/// two, and distinct scalings have distinct ratios.
pub proof fn lemma_ratio_fixed_set(a: CoordScaling, b: CoordScaling)
    ensures
        a.ratio() == 1 || a.ratio() == 4 || a.ratio() == 16 || a.ratio() == 64 || a.ratio() == 256,
        a.ratio() > 0,
        a.ratio() == b.ratio() ==> a == b,
{
}

} // verus!
