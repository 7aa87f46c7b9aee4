//! The top-level engine state and the per-frame update orchestration.
//!
//! One owned aggregate holds the clock, the emitters, the post-process
//! chain, the terrain generator and the asset collection; the frame loop
//! passes it by exclusive reference. Each frame, structural events (create
//! or delete an emitter) are applied first, then every emitter is updated
//! in registration order: its parameter record advances, pending list
//! edits of its animation collections are applied, its enabled emitter
//! animations mutate the parameters in order — later ones observing what
//! earlier ones wrote — the record uploads, and finally every particle
//! animation updates. A construction failure aborts the whole operation
//! and leaves the state exactly as it was.

use crate::animation::{
    lemma_reset_preserves_emitter_wf, lemma_reset_preserves_particle_update_ok, EmitterAnimation,
    ParticleAnimation,
};
use crate::assets::AssetCollection;
use crate::clock::Clock;
use crate::emitter::{
    spec_dispatch_x, CreateEmitterOptions, EmitterState, EmitterType, EmitterUniform, BUILTIN_ID,
    PARTICLE_RECORD_BYTES,
};
use crate::errors::ConstructionError;
use crate::fx::{PostProcessState, SurfaceConfig};
use crate::list_action::{
    lemma_update_list_empty, lemma_update_list_membership, spec_update_list, HandleAction,
    ListAction,
};
use crate::math::{saturating_inc, spec_saturating_inc};
use crate::terrain::TerrainGenerator;
use vstd::prelude::*;

verus! {

/// The whole engine state, owned by the frame loop.
#[derive(Debug)]
pub struct SparState {
    pub clock: Clock,
    /// The emitters, in registration order; the light emitter, when
    /// present, is registered first.
    pub emitters: Vec<EmitterState>,
    pub post_process: PostProcessState,
    pub terrain_generator: TerrainGenerator,
    pub collection: AssetCollection,
    pub surface: SurfaceConfig,
    /// Whether the simulation is advancing.
    pub play: bool,
}

/// Structural change requests consumed once per frame.
#[derive(Debug)]
pub struct SparEvents {
    /// Remove the emitter with this id.
    pub delete_emitter: Option<String>,
    /// Create a default emitter under this id.
    pub create_emitter: Option<String>,
}

impl Default for SparEvents {
    /// No pending requests.
    fn default() -> (r: SparEvents)
        ensures
            r.delete_emitter is None,
            r.create_emitter is None,
    {
        SparEvents { delete_emitter: None, create_emitter: None }
    }
}

/// The emitter parameters after the enabled emitter animations from
/// position `j` on ran in order, each observing its predecessors' writes.
pub open spec fn spec_run_emitter_anims(
    u: EmitterUniform,
    anims: Seq<EmitterAnimation>,
    j: int,
    elapsed_ms: u64,
) -> EmitterUniform
    decreases anims.len() - j,
    when 0 <= j <= anims.len()
{
    if j >= anims.len() {
        u
    } else {
        let u2 = if anims[j].spec_enabled() {
            anims[j].spec_animated(u, elapsed_ms)
        } else {
            u
        };
        spec_run_emitter_anims(u2, anims, j + 1, elapsed_ms)
    }
}

/// Relation between an emitter before and after its per-frame update: list
/// edits applied, enabled emitter animations run in order over the
/// advanced parameter record, one record upload counted, and every
/// particle animation updated. Buffers, dispatch width and rendering role
/// are untouched.
pub open spec fn is_updated_emitter(pre: EmitterState, post: EmitterState, elapsed_ms: u64) -> bool {
    let eanims = spec_update_list(pre.emitter_animations@);
    &&& post.uniform == spec_run_emitter_anims(
        pre.uniform.spec_updated(elapsed_ms),
        eanims,
        0,
        elapsed_ms,
    )
    &&& post.emitter_animations@ == eanims
    &&& post.particle_animations@ == spec_update_list(pre.particle_animations@).map_values(
        |a: ParticleAnimation| a.spec_updated(elapsed_ms),
    )
    &&& post.particle_buffers == pre.particle_buffers
    &&& post.dispatch_x_count == pre.dispatch_x_count
    &&& post.is_light == pre.is_light
    &&& post.uniform_uploads == spec_saturating_inc(pre.uniform_uploads)
}

/// An emitter whose animations are all safe to run this frame.
pub open spec fn spec_emitter_update_ok(em: EmitterState) -> bool {
    &&& forall|j: int|
        0 <= j < em.particle_animations@.len() ==> (
        #[trigger] em.particle_animations@[j]).update_ok()
    &&& forall|j: int|
        0 <= j < em.emitter_animations@.len() ==> (#[trigger] em.emitter_animations@[j]).wf()
}

/// The emitters surviving a deletion request, from position `i` on: every
/// emitter whose id differs from the deleted tag, in order.
pub open spec fn spec_retained(s: Seq<EmitterState>, tag: Seq<char>, i: int) -> Seq<EmitterState>
    decreases s.len() - i,
    when 0 <= i <= s.len()
{
    if i >= s.len() {
        Seq::empty()
    } else if s[i].uniform.id@ == tag {
        spec_retained(s, tag, i + 1)
    } else {
        seq![s[i]] + spec_retained(s, tag, i + 1)
    }
}

/// Every survivor of a deletion request is one of the original emitters.
proof fn lemma_retained_membership(s: Seq<EmitterState>, tag: Seq<char>, i: int)
    requires
        0 <= i <= s.len(),
    ensures
        forall|x: EmitterState| #[trigger] spec_retained(s, tag, i).contains(x) ==> s.contains(x),
    decreases s.len() - i,
{
    if i < s.len() {
        lemma_retained_membership(s, tag, i + 1);
        assert forall|x: EmitterState| #[trigger] spec_retained(s, tag, i).contains(x) implies s
            .contains(x) by {
            if s[i].uniform.id@ == tag {
                assert(spec_retained(s, tag, i + 1).contains(x));
            } else {
                let k = choose|k: int|
                    0 <= k < spec_retained(s, tag, i).len() && spec_retained(s, tag, i)[k] == x;
                if k == 0 {
                    assert(spec_retained(s, tag, i)[0] == s[i]);
                    assert(s[i] == x);
                } else {
                    assert(spec_retained(s, tag, i)[k] == spec_retained(s, tag, i + 1)[k - 1]);
                    assert(spec_retained(s, tag, i + 1).contains(x));
                }
            }
        }
    }
}

/// A freshly created default emitter as it stands after the frame update
/// that created it: default parameters under the requested id, advanced to
/// the frame's elapsed reading, zeroed buffers, no animations, one record
/// upload.
pub open spec fn is_created_updated_emitter(
    em: EmitterState,
    id: Seq<char>,
    elapsed_ms: u64,
) -> bool {
    &&& em.uniform.id@ == id
    &&& em.uniform.particle_count == 1024
    &&& em.uniform.mesh.collection_id@ == BUILTIN_ID@
    &&& em.uniform.material.collection_id@ == BUILTIN_ID@
    &&& em.uniform.elapsed_ms == elapsed_ms
    &&& em.dispatch_x_count == spec_dispatch_x(1024)
    &&& em.particle_buffers@.len() == 2
    &&& forall|b: int|
        0 <= b < 2 ==> (#[trigger] em.particle_buffers@[b])@.len() == 1024 * PARTICLE_RECORD_BYTES
    &&& forall|b: int, q: int|
        0 <= b < 2 && 0 <= q < 1024 * PARTICLE_RECORD_BYTES ==> (
        #[trigger] em.particle_buffers@[b]@[q]) == 0
    &&& em.particle_animations@.len() == 0
    &&& em.emitter_animations@.len() == 0
    &&& !em.is_light
    &&& em.uniform_uploads == 1
}

/// Runs one emitter's per-frame update: parameter record advance, list
/// edits, emitter animations in order, record upload, particle animation
/// updates.
fn update_one_emitter(em: &mut EmitterState, clock: &Clock)
    requires
        spec_emitter_update_ok(*old(em)),
    ensures
        is_updated_emitter(*old(em), *final(em), clock.last_update_ns / 1_000_000),
{
    let ghost e: u64 = (clock.last_update_ns / 1_000_000) as u64;
    em.uniform.update(clock);
    let ghost u1 = em.uniform;

    ListAction::update_list(&mut em.emitter_animations);
    proof {
        lemma_update_list_membership::<EmitterAnimation>(old(em).emitter_animations@);
        assert forall|j: int| 0 <= j < em.emitter_animations@.len() implies (
        #[trigger] em.emitter_animations@[j]).wf() by {
            let x = em.emitter_animations@[j];
            assert(spec_update_list(old(em).emitter_animations@).contains(x));
            let y = choose|y: EmitterAnimation|
                old(em).emitter_animations@.contains(y) && x == y.spec_reset();
            let jy = choose|jy: int|
                0 <= jy < old(em).emitter_animations@.len() && old(em).emitter_animations@[jy]
                    == y;
            assert(y.wf());
            lemma_reset_preserves_emitter_wf(y);
        }
    }
    let ghost eanims = em.emitter_animations@;

    let mut j: usize = 0;
    while j < em.emitter_animations.len()
        invariant
            j <= eanims.len(),
            em.emitter_animations@ == eanims,
            forall|q: int| 0 <= q < eanims.len() ==> (#[trigger] eanims[q]).wf(),
            spec_run_emitter_anims(u1, eanims, 0, e) == spec_run_emitter_anims(
                em.uniform,
                eanims,
                j as int,
                e,
            ),
            e == clock.last_update_ns / 1_000_000,
            em.particle_animations == old(em).particle_animations,
            em.particle_buffers == old(em).particle_buffers,
            em.dispatch_x_count == old(em).dispatch_x_count,
            em.is_light == old(em).is_light,
            em.uniform_uploads == old(em).uniform_uploads,
        decreases eanims.len() - j,
    {
        let ghost pre_anims = em.emitter_animations@;
        let ghost pre_u = em.uniform;
        let enabled = em.emitter_animations[j].enabled();
        if enabled {
            let anim: &mut EmitterAnimation = &mut em.emitter_animations[j];
            anim.animate(&mut em.uniform, clock);
            proof {
                assert(em.emitter_animations@ =~= pre_anims);
            }
        }
        j = j + 1;
    }

    em.uniform_uploads = saturating_inc(em.uniform_uploads);

    ListAction::update_list(&mut em.particle_animations);
    proof {
        lemma_update_list_membership::<ParticleAnimation>(old(em).particle_animations@);
        assert forall|q: int| 0 <= q < em.particle_animations@.len() implies (
        #[trigger] em.particle_animations@[q]).update_ok() by {
            let x = em.particle_animations@[q];
            assert(spec_update_list(old(em).particle_animations@).contains(x));
            let y = choose|y: ParticleAnimation|
                old(em).particle_animations@.contains(y) && x == y.spec_reset();
            let qy = choose|qy: int|
                0 <= qy < old(em).particle_animations@.len() && old(em).particle_animations@[qy]
                    == y;
            assert(y.update_ok());
            lemma_reset_preserves_particle_update_ok(y);
        }
    }
    let ghost plist = em.particle_animations@;

    let mut k: usize = 0;
    while k < em.particle_animations.len()
        invariant
            k <= plist.len(),
            em.particle_animations@.len() == plist.len(),
            forall|q: int|
                0 <= q < k ==> em.particle_animations@[q] == (#[trigger] plist[q]).spec_updated(e),
            forall|q: int| k <= q < plist.len() ==> em.particle_animations@[q] == plist[q],
            forall|q: int| 0 <= q < plist.len() ==> (#[trigger] plist[q]).update_ok(),
            e == clock.last_update_ns / 1_000_000,
            em.uniform == spec_run_emitter_anims(u1, eanims, 0, e),
            em.emitter_animations@ == eanims,
            em.particle_buffers == old(em).particle_buffers,
            em.dispatch_x_count == old(em).dispatch_x_count,
            em.is_light == old(em).is_light,
            em.uniform_uploads == spec_saturating_inc(old(em).uniform_uploads),
        decreases plist.len() - k,
    {
        proof {
            assert(em.particle_animations@[k as int] == plist[k as int]);
            assert(plist[k as int].update_ok());
        }
        let anim: &mut ParticleAnimation = &mut em.particle_animations[k];
        anim.update(clock);
        k = k + 1;
    }
    proof {
        assert(em.particle_animations@ =~= plist.map_values(
            |a: ParticleAnimation| a.spec_updated(e),
        ));
    }
}

impl EmitterState {
    /// Applies the frame's structural events, then updates every emitter
    /// in registration order. Creating an emitter whose assets are not
    /// loaded fails the whole operation and leaves the state untouched —
    /// nothing is inserted.
    pub fn update(state: &mut SparState, events: &SparEvents) -> (r: Result<(), ConstructionError>)
        requires
            forall|i: int|
                0 <= i < old(state).emitters@.len() ==> spec_emitter_update_ok(
                    #[trigger] old(state).emitters@[i],
                ),
            (events.delete_emitter is None && events.create_emitter is Some) ==> old(
                state,
            ).emitters@.len() > 0,
        ensures
            final(state).clock == old(state).clock,
            final(state).post_process == old(state).post_process,
            final(state).terrain_generator == old(state).terrain_generator,
            final(state).collection == old(state).collection,
            final(state).surface == old(state).surface,
            final(state).play == old(state).play,
            events.delete_emitter matches Some(tag) ==> (r is Ok && {
                let kept = spec_retained(old(state).emitters@, tag@, 0);
                let e = (old(state).clock.last_update_ns / 1_000_000) as u64;
                &&& final(state).emitters@.len() == kept.len()
                &&& forall|i: int|
                    0 <= i < kept.len() ==> is_updated_emitter(
                        #[trigger] kept[i],
                        final(state).emitters@[i],
                        e,
                    )
            }),
            (events.delete_emitter is None && events.create_emitter is None) ==> (r is Ok && {
                let e = (old(state).clock.last_update_ns / 1_000_000) as u64;
                &&& final(state).emitters@.len() == old(state).emitters@.len()
                &&& forall|i: int|
                    0 <= i < old(state).emitters@.len() ==> is_updated_emitter(
                        #[trigger] old(state).emitters@[i],
                        final(state).emitters@[i],
                        e,
                    )
            }),
            (events.delete_emitter is None && old(state).collection.spec_contains(BUILTIN_ID@))
                ==> (events.create_emitter matches Some(id) ==> r is Ok && {
                let e = (old(state).clock.last_update_ns / 1_000_000) as u64;
                &&& final(state).emitters@.len() == old(state).emitters@.len() + 1
                &&& forall|i: int|
                    0 <= i < old(state).emitters@.len() ==> is_updated_emitter(
                        #[trigger] old(state).emitters@[i],
                        final(state).emitters@[i],
                        e,
                    )
                &&& is_created_updated_emitter(
                    final(state).emitters@[old(state).emitters@.len() as int],
                    id@,
                    e,
                )
            }),
            (events.delete_emitter is None && events.create_emitter is Some && !old(
                state,
            ).collection.spec_contains(BUILTIN_ID@)) ==> (r matches Err(
                ConstructionError::UnknownAssetKey { key },
            ) && key@ == BUILTIN_ID@ && *final(state) == *old(state)),
    {
        let ghost e: u64 = (old(state).clock.last_update_ns / 1_000_000) as u64;

        if let Some(tag) = &events.delete_emitter {
            let ghost pre = state.emitters@;
            let mut input: Vec<EmitterState> = Vec::new();
            core::mem::swap(&mut state.emitters, &mut input);
            let mut kept: Vec<EmitterState> = Vec::new();
            proof {
                assert(kept@ + spec_retained(pre, tag@, 0) =~= spec_retained(pre, tag@, 0));
            }
            while input.len() > 0
                invariant
                    input@.len() <= pre.len(),
                    input@ == pre.subrange(pre.len() - input@.len(), pre.len() as int),
                    kept@ + spec_retained(pre, tag@, pre.len() - input@.len()) == spec_retained(
                        pre,
                        tag@,
                        0,
                    ),
                decreases input@.len(),
            {
                let ghost snap = input@;
                let ghost processed = pre.len() - snap.len();
                let em = input.remove(0);
                proof {
                    assert(snap == pre.subrange(processed, pre.len() as int));
                    assert(pre.subrange(processed, pre.len() as int)[0] == pre[processed]);
                    assert(em == pre[processed]);
                    snap.remove_ensures(0);
                    assert forall|q: int| 0 <= q < input@.len() implies input@[q] == pre.subrange(
                        processed + 1,
                        pre.len() as int,
                    )[q] by {
                        assert(input@[q] == snap[q + 1]);
                        assert(pre.subrange(processed, pre.len() as int)[q + 1] == pre[processed
                            + 1 + q]);
                        assert(pre.subrange(processed + 1, pre.len() as int)[q] == pre[processed
                            + 1 + q]);
                    }
                    assert(input@ =~= pre.subrange(processed + 1, pre.len() as int));
                }
                if !em.uniform.id.eq(tag) {
                    kept.push(em);
                }
            }
            proof {
                assert(kept@ =~= spec_retained(pre, tag@, 0));
            }
            state.emitters = kept;
            proof {
                lemma_retained_membership(pre, tag@, 0);
                assert forall|i: int| 0 <= i < state.emitters@.len() implies spec_emitter_update_ok(
                    #[trigger] state.emitters@[i],
                ) by {
                    let x = state.emitters@[i];
                    assert(spec_retained(pre, tag@, 0).contains(x));
                    let jx = choose|jx: int| 0 <= jx < pre.len() && pre[jx] == x;
                    assert(spec_emitter_update_ok(pre[jx]));
                }
            }
        } else if let Some(id) = &events.create_emitter {
            let uniform = EmitterUniform::new(id.clone());
            match EmitterState::new(
                CreateEmitterOptions {
                    uniform,
                    collection: &state.collection,
                    emitter_type: EmitterType::Normal,
                },
            ) {
                Ok(em) => {
                    state.emitters.push(em);
                },
                Err(ce) => {
                    return Err(ce);
                },
            }
        }

        let ghost base = state.emitters@;
        proof {
            assert forall|i: int| 0 <= i < base.len() implies spec_emitter_update_ok(
                #[trigger] base[i],
            ) by {
                if events.delete_emitter is Some {
                } else if events.create_emitter is Some {
                    if i < old(state).emitters@.len() {
                        assert(base[i] == old(state).emitters@[i]);
                    }
                } else {
                    assert(base[i] == old(state).emitters@[i]);
                }
            }
        }

        let clock_copy = state.clock;
        let mut i: usize = 0;
        while i < state.emitters.len()
            invariant
                i <= base.len(),
                state.emitters@.len() == base.len(),
                clock_copy == state.clock,
                state.clock == old(state).clock,
                state.post_process == old(state).post_process,
                state.terrain_generator == old(state).terrain_generator,
                state.collection == old(state).collection,
                state.surface == old(state).surface,
                state.play == old(state).play,
                e == clock_copy.last_update_ns / 1_000_000,
                forall|k: int|
                    0 <= k < i ==> is_updated_emitter(#[trigger] base[k], state.emitters@[k], e),
                forall|k: int| i <= k < base.len() ==> state.emitters@[k] == base[k],
                forall|k: int| 0 <= k < base.len() ==> spec_emitter_update_ok(#[trigger] base[k]),
            decreases base.len() - i,
        {
            proof {
                assert(state.emitters@[i as int] == base[i as int]);
            }
            let em: &mut EmitterState = &mut state.emitters[i];
            update_one_emitter(em, &clock_copy);
            i = i + 1;
        }

        proof {
            if events.delete_emitter is None && events.create_emitter is Some {
                let n = old(state).emitters@.len() as int;
                assert(base.len() == n + 1);
                assert forall|i2: int| 0 <= i2 < n implies is_updated_emitter(
                    #[trigger] old(state).emitters@[i2],
                    state.emitters@[i2],
                    e,
                ) by {
                    assert(base[i2] == old(state).emitters@[i2]);
                    assert(is_updated_emitter(base[i2], state.emitters@[i2], e));
                }
                let created = base[n];
                let updated = state.emitters@[n];
                assert(is_updated_emitter(created, updated, e));
                lemma_update_list_empty::<EmitterAnimation>();
                lemma_update_list_empty::<ParticleAnimation>();
                assert(created.emitter_animations@ =~= Seq::<EmitterAnimation>::empty());
                assert(created.particle_animations@ =~= Seq::<ParticleAnimation>::empty());
                assert(spec_update_list(created.emitter_animations@) == Seq::<
                    EmitterAnimation,
                >::empty());
                assert(spec_run_emitter_anims(
                    created.uniform.spec_updated(e),
                    Seq::<EmitterAnimation>::empty(),
                    0,
                    e,
                ) == created.uniform.spec_updated(e));
                assert(updated.uniform == created.uniform.spec_updated(e));
                assert(spec_update_list(created.particle_animations@).map_values(
                    |a: ParticleAnimation| a.spec_updated(e),
                ) =~= Seq::<ParticleAnimation>::empty());
                assert(updated.particle_animations@.len() == 0);
                assert(updated.emitter_animations@.len() == 0);
                assert(updated.uniform_uploads == 1);
                assert(is_created_updated_emitter(
                    updated,
                    (events.create_emitter->Some_0)@,
                    e,
                ));
            }
            if events.delete_emitter is None && events.create_emitter is None {
                assert forall|i2: int| 0 <= i2 < old(state).emitters@.len() implies
                    is_updated_emitter(
                    #[trigger] old(state).emitters@[i2],
                    state.emitters@[i2],
                    e,
                ) by {
                    assert(base[i2] == old(state).emitters@[i2]);
                    assert(is_updated_emitter(base[i2], state.emitters@[i2], e));
                }
            }
        }
        Ok(())
    }
}

impl SparState {
    /// Applies a surface change: the post-process chain recreates every
    /// owned target at the new dimensions, the cached environment cubemap
    /// is invalidated, and the new surface is recorded. Emitters, clock
    /// and assets are untouched.
    pub fn resize(&mut self, config: SurfaceConfig) -> (r: ())
        requires
            config.wf(),
            forall|i: int|
                0 <= i < old(self).post_process.post_fx@.len() ==> (
                #[trigger] old(self).post_process.post_fx@[i]).wf(),
        ensures
            final(self).surface == config,
            final(self).post_process.uniform.offset == crate::fx::spec_fx_offset(config),
            final(self).post_process.fx_state == old(self).post_process.fx_state.spec_resized(
                crate::fx::spec_fx_width(config) as u32,
                crate::fx::spec_fx_height(config) as u32,
            ),
            final(self).post_process.post_fx@.len() == old(self).post_process.post_fx@.len(),
            forall|i: int|
                0 <= i < old(self).post_process.post_fx@.len()
                    ==> final(self).post_process.post_fx@[i] == (
                #[trigger] old(self).post_process.post_fx@[i]).spec_resized(config),
            !final(self).terrain_generator.has_been_executed,
            final(self).terrain_generator.uniform_ctxs == old(self).terrain_generator.uniform_ctxs,
            final(self).clock == old(self).clock,
            final(self).emitters == old(self).emitters,
            final(self).collection == old(self).collection,
            final(self).play == old(self).play,
    {
        self.surface = config;
        self.post_process.resize(&config);
        self.terrain_generator.resize();
    }
}

} // verus!
