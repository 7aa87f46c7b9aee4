//! Environment/terrain generator: an expensive compute-and-render job that
//! runs at most once.
//!
//! The generator precomputes an environment cubemap over a ladder of
//! doubling resolutions. A single flag gates it: after one execution every
//! later frame is a no-op, until an explicit invalidation (a resize) clears
//! the flag again.

use crate::plan::DispatchRecord;
use vstd::prelude::*;

verus! {

/// Edge of the final cubemap face, in texels.
pub const CUBE_SIZE: u32 = 2048;

/// Texels covered by one terrain workgroup edge.
pub const TERRAIN_WORKGROUP: u32 = 16;

/// Parameters of one rung of the resolution ladder.
#[derive(Clone, Copy, Debug, PartialEq, Eq, Structural)]
pub struct TerrainUniform {
    /// Noise amplitude, micro-units.
    pub noise: i64,
    /// Face edge this rung renders at, in texels.
    pub tex_size: u32,
}

/// One rung of the resolution ladder: its parameters and the workgroup
/// counts covering its face.
#[derive(Clone, Copy, Debug, PartialEq, Eq, Structural)]
pub struct TerrainUniformCtx {
    pub uniform: TerrainUniform,
    pub count_x: u32,
    pub count_y: u32,
}

/// Face edge of ladder rung `i`: 128 texels doubled per rung.
pub open spec fn spec_terrain_size(i: int) -> int
    decreases i,
{
    if i <= 0 {
        128
    } else {
        2 * spec_terrain_size(i - 1)
    }
}

/// The terrain generator.
#[derive(Debug)]
pub struct TerrainGenerator {
    /// The resolution ladder, coarse to fine.
    pub uniform_ctxs: Vec<TerrainUniformCtx>,
    /// Whether the cubemap has been produced since the last invalidation.
    pub has_been_executed: bool,
}

impl TerrainGenerator {
    /// The resolution ladder: every doubling from 128 texels up to the
    /// cube size, each rung dispatched one workgroup per 16 texels.
    pub fn create_group_sizes() -> (r: Vec<TerrainUniformCtx>)
        ensures
            r@.len() == 5,
            forall|i: int|
                0 <= i < r@.len() ==> #[trigger] r@[i] == (TerrainUniformCtx {
                    uniform: TerrainUniform {
                        noise: 500_000,
                        tex_size: spec_terrain_size(i) as u32,
                    },
                    count_x: (spec_terrain_size(i) / (TERRAIN_WORKGROUP as int)) as u32,
                    count_y: (spec_terrain_size(i) / (TERRAIN_WORKGROUP as int)) as u32,
                }),
    {
        let mut ctxs: Vec<TerrainUniformCtx> = Vec::new();
        let mut tex_size: u32 = 128;
        while tex_size <= CUBE_SIZE
            invariant
                tex_size == spec_terrain_size(ctxs@.len() as int),
                tex_size <= 2 * CUBE_SIZE,
                ctxs@.len() <= 5,
                forall|i: int|
                    0 <= i < ctxs@.len() ==> #[trigger] ctxs@[i] == (TerrainUniformCtx {
                        uniform: TerrainUniform {
                            noise: 500_000,
                            tex_size: spec_terrain_size(i) as u32,
                        },
                        count_x: (spec_terrain_size(i) / (TERRAIN_WORKGROUP as int)) as u32,
                        count_y: (spec_terrain_size(i) / (TERRAIN_WORKGROUP as int)) as u32,
                    }),
            decreases 2 * CUBE_SIZE - tex_size,
        {
            proof {
                lemma_terrain_size_at_least(ctxs@.len() as int);
                reveal_with_fuel(spec_terrain_size, 7);
                if ctxs@.len() >= 5 {
                    lemma_terrain_size_monotonic(5, ctxs@.len() as int);
                    assert(false);
                }
            }
            let count = tex_size / TERRAIN_WORKGROUP;
            ctxs.push(
                TerrainUniformCtx {
                    uniform: TerrainUniform { noise: 500_000, tex_size },
                    count_x: count,
                    count_y: count,
                },
            );
            tex_size = tex_size * 2;
        }
        proof {
            reveal_with_fuel(spec_terrain_size, 7);
            if ctxs@.len() < 5 {
                lemma_terrain_size_monotonic(ctxs@.len() as int, 4);
                assert(false);
            }
        }
        ctxs
    }

    /// A fresh generator: ladder built, cubemap not yet produced.
    pub fn new() -> (r: TerrainGenerator)
        ensures
            !r.has_been_executed,
            r.uniform_ctxs@.len() == 5,
            forall|i: int|
                0 <= i < r.uniform_ctxs@.len() ==> #[trigger] r.uniform_ctxs@[i]
                    == (TerrainUniformCtx {
                    uniform: TerrainUniform {
                        noise: 500_000,
                        tex_size: spec_terrain_size(i) as u32,
                    },
                    count_x: (spec_terrain_size(i) / (TERRAIN_WORKGROUP as int)) as u32,
                    count_y: (spec_terrain_size(i) / (TERRAIN_WORKGROUP as int)) as u32,
                }),
    {
        TerrainGenerator { uniform_ctxs: Self::create_group_sizes(), has_been_executed: false }
    }

    /// Which member of the cubemap binding pair later passes sample from.
    pub fn environment_bg(&self) -> (r: usize)
        ensures
            r == self.uniform_ctxs@.len() % 2,
    {
        self.uniform_ctxs.len() % 2
    }

    /// Which member of the cubemap view pair later passes sample from.
    pub fn environment_view(&self) -> (r: usize)
        ensures
            r == self.uniform_ctxs@.len() % 2,
    {
        self.uniform_ctxs.len() % 2
    }

    /// Invalidates the cached cubemap: the next compute runs again.
    pub fn resize(&mut self)
        ensures
            !final(self).has_been_executed,
            final(self).uniform_ctxs == old(self).uniform_ctxs,
    {
        self.has_been_executed = false;
    }

    /// Plans the cubemap computation: one dispatch per ladder rung over
    /// all six faces, alternating the binding pair — or nothing at all if
    /// the cubemap is already produced. A successful plan marks the cache.
    pub fn compute(&mut self) -> (r: Option<Vec<DispatchRecord>>)
        ensures
            old(self).has_been_executed ==> r is None && *final(self) == *old(self),
            !old(self).has_been_executed ==> {
                &&& r matches Some(plan)
                &&& plan@.len() == old(self).uniform_ctxs@.len()
                &&& forall|i: int|
                    0 <= i < plan@.len() ==> #[trigger] plan@[i] == (DispatchRecord {
                        bind_group_nr: (i % 2) as usize,
                        count_x: old(self).uniform_ctxs@[i].count_x,
                        count_y: old(self).uniform_ctxs@[i].count_y,
                        count_z: 6,
                    })
                &&& final(self).has_been_executed
                &&& final(self).uniform_ctxs == old(self).uniform_ctxs
            },
    {
        if self.has_been_executed {
            return None;
        }
        let mut plan: Vec<DispatchRecord> = Vec::new();
        let mut i: usize = 0;
        while i < self.uniform_ctxs.len()
            invariant
                i <= self.uniform_ctxs@.len(),
                plan@.len() == i,
                forall|k: int|
                    0 <= k < i ==> #[trigger] plan@[k] == (DispatchRecord {
                        bind_group_nr: (k % 2) as usize,
                        count_x: self.uniform_ctxs@[k].count_x,
                        count_y: self.uniform_ctxs@[k].count_y,
                        count_z: 6,
                    }),
            decreases self.uniform_ctxs@.len() - i,
        {
            let ctx = &self.uniform_ctxs[i];
            plan.push(
                DispatchRecord {
                    bind_group_nr: i % 2,
                    count_x: ctx.count_x,
                    count_y: ctx.count_y,
                    count_z: 6,
                },
            );
            i = i + 1;
        }
        self.has_been_executed = true;
        Some(plan)
    }

    /// The cubemap binding the terrain draw of a frame samples.
    pub fn render(&self) -> (r: usize)
        ensures
            r == self.uniform_ctxs@.len() % 2,
    {
        self.environment_bg()
    }
}

/// The ladder never falls below its base resolution.
proof fn lemma_terrain_size_at_least(i: int)
    ensures
        spec_terrain_size(i) >= 128,
    decreases
            (if i >= 0 {
                i
            } else {
                0
            }),
{
    if i > 0 {
        lemma_terrain_size_at_least(i - 1);
    }
}

/// The ladder doubles, so later rungs are strictly larger.
proof fn lemma_terrain_size_monotonic(a: int, b: int)
    requires
        0 <= a <= b,
    ensures
        spec_terrain_size(a) <= spec_terrain_size(b),
    decreases b - a,
{
    if a < b {
        lemma_terrain_size_monotonic(a, b - 1);
        lemma_terrain_size_at_least(b - 1);
    }
}

} // verus!
