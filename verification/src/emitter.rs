//! Emitter state: parameters, double-buffered particle storage, and the
//! per-frame simulation plan.
//!
//! An emitter owns its parameter record, a pair of equally sized particle
//! buffers (modelled byte for byte), the derived dispatch width of its
//! simulation kernel, and the animations attached to it. Each frame it is
//! updated (animations mutate parameters, parameters upload), then
//! simulated (one kernel dispatch reading the current-parity buffer and
//! writing the other, followed by the enabled particle animations), then
//! rendered from the buffer just written.

use crate::animation::{EmitterAnimation, ParticleAnimation};
use crate::assets::AssetCollection;
use crate::clock::{spec_alt_parity, spec_parity, Clock};
use crate::errors::ConstructionError;
use crate::math::Vec3i;
use crate::list_action::HandleAction;
use crate::plan::{DispatchRecord, DrawRecord};
use vstd::pervasive::unreached;
use vstd::pervasive::VecAdditionalExecFns;
use vstd::prelude::*;

verus! {

/// Particles simulated per workgroup by the simulation kernel.
pub const WORKGROUP_SIZE: u64 = 128;

/// Bytes one particle occupies in the storage buffer.
pub const PARTICLE_RECORD_BYTES: u64 = 64;

/// Largest supported particle count per emitter; keeps every buffer size
/// inside address range.
pub const MAX_PARTICLES: u64 = 16_777_216;

/// Key of the built-in asset bundle.
pub const BUILTIN_ID: &'static str = "builtin";

/// Workgroup rows needed to cover a particle count.
pub open spec fn spec_dispatch_x(count: u64) -> nat {
    (((count as int) + (WORKGROUP_SIZE as int) - 1) / (WORKGROUP_SIZE as int)) as nat
}

/// Reference to an asset in the external collection.
#[derive(Debug)]
pub struct MeshRef {
    pub collection_id: String,
}

impl MeshRef {
    /// An equal, independently owned reference.
    pub fn duplicate(&self) -> (r: MeshRef)
        ensures
            r == *self,
    {
        MeshRef { collection_id: self.collection_id.clone() }
    }
}

/// Fragment-shader entry point a mesh is drawn with.
#[derive(Clone, Copy, Debug, Hash, PartialEq, Eq, Structural)]
pub enum FsEntryPoint {
    Model,
    Circle,
}

impl FsEntryPoint {
    /// The entry point's name in the shader module.
    pub fn name(&self) -> (r: &'static str)
        ensures
            *self is Model ==> r@ == "fs_model"@,
            *self is Circle ==> r@ == "fs_circle"@,
    {
        match self {
            FsEntryPoint::Model => "fs_model",
            FsEntryPoint::Circle => "fs_circle",
        }
    }
}

/// Whether an emitter is the scene's light source or an ordinary emitter.
/// Ordinary emitters additionally bind the light emitter's stable particle
/// buffer while rendering.
#[derive(Clone, Copy, Debug, PartialEq, Eq, Structural)]
pub enum EmitterType {
    Lights,
    Normal,
}

/// The emitter's parameter record: what the configuration edits and the
/// emitter animations mutate, and what uploads into the emitter's uniform
/// buffer each frame. Spatial values are in micro-units, angles in
/// milli-degrees.
#[derive(Debug)]
pub struct EmitterUniform {
    pub id: String,
    pub particle_count: u64,
    /// Particles spawned per spawn step.
    pub spawn_count: u32,
    pub spawn_delay_ms: u64,
    pub particle_lifetime_ms: u64,
    pub box_position: Vec3i,
    pub box_dimensions: Vec3i,
    pub box_rotation_mdeg: Vec3i,
    /// Spray cone width, milli-degrees.
    pub diff_width_mdeg: i64,
    /// Spray cone depth, milli-degrees.
    pub diff_depth_mdeg: i64,
    pub particle_speed_min: i64,
    pub particle_speed_max: i64,
    pub particle_size_min: i64,
    pub particle_size_max: i64,
    pub mesh: MeshRef,
    pub material: MeshRef,
    /// Elapsed reading at the last update, for spawn timing.
    pub elapsed_ms: u64,
}

impl EmitterUniform {
    /// Counts and delays inside machine range.
    pub open spec fn wf(&self) -> bool {
        self.particle_count <= MAX_PARTICLES && self.spawn_delay_ms <= i64::MAX
            && self.particle_lifetime_ms <= i64::MAX
    }

    /// A default parameter record under a fresh id, referencing the
    /// built-in assets.
    pub fn new(id: String) -> (r: EmitterUniform)
        ensures
            r.id == id,
            r.particle_count == 1024,
            r.spawn_count == 16,
            r.spawn_delay_ms == 200,
            r.particle_lifetime_ms == 6_000,
            r.box_position == (Vec3i { x: 0, y: 0, z: 0 }),
            r.box_dimensions == (Vec3i { x: 1_000_000, y: 1_000_000, z: 1_000_000 }),
            r.box_rotation_mdeg == (Vec3i { x: 0, y: 0, z: 0 }),
            r.diff_width_mdeg == 15_000,
            r.diff_depth_mdeg == 15_000,
            r.particle_speed_min == 5_000_000,
            r.particle_speed_max == 10_000_000,
            r.particle_size_min == 100_000,
            r.particle_size_max == 300_000,
            r.mesh.collection_id@ == BUILTIN_ID@,
            r.material.collection_id@ == BUILTIN_ID@,
            r.elapsed_ms == 0,
            r.wf(),
    {
        EmitterUniform {
            id,
            particle_count: 1024,
            spawn_count: 16,
            spawn_delay_ms: 200,
            particle_lifetime_ms: 6_000,
            box_position: Vec3i { x: 0, y: 0, z: 0 },
            box_dimensions: Vec3i { x: 1_000_000, y: 1_000_000, z: 1_000_000 },
            box_rotation_mdeg: Vec3i { x: 0, y: 0, z: 0 },
            diff_width_mdeg: 15_000,
            diff_depth_mdeg: 15_000,
            particle_speed_min: 5_000_000,
            particle_speed_max: 10_000_000,
            particle_size_min: 100_000,
            particle_size_max: 300_000,
            mesh: MeshRef { collection_id: BUILTIN_ID.to_owned() },
            material: MeshRef { collection_id: BUILTIN_ID.to_owned() },
            elapsed_ms: 0,
        }
    }

    /// An equal, independently owned record.
    pub fn duplicate(&self) -> (r: EmitterUniform)
        ensures
            r == *self,
    {
        EmitterUniform {
            id: self.id.clone(),
            particle_count: self.particle_count,
            spawn_count: self.spawn_count,
            spawn_delay_ms: self.spawn_delay_ms,
            particle_lifetime_ms: self.particle_lifetime_ms,
            box_position: self.box_position,
            box_dimensions: self.box_dimensions,
            box_rotation_mdeg: self.box_rotation_mdeg,
            diff_width_mdeg: self.diff_width_mdeg,
            diff_depth_mdeg: self.diff_depth_mdeg,
            particle_speed_min: self.particle_speed_min,
            particle_speed_max: self.particle_speed_max,
            particle_size_min: self.particle_size_min,
            particle_size_max: self.particle_size_max,
            mesh: self.mesh.duplicate(),
            material: self.material.duplicate(),
            elapsed_ms: self.elapsed_ms,
        }
    }

    pub fn particle_count(&self) -> (r: u64)
        ensures
            r == self.particle_count,
    {
        self.particle_count
    }

    /// Size of one particle storage buffer, in bytes.
    pub fn particle_buffer_size(&self) -> (r: u64)
        requires
            self.wf(),
        ensures
            r == self.particle_count * PARTICLE_RECORD_BYTES,
    {
        self.particle_count * PARTICLE_RECORD_BYTES
    }

    /// The record after a frame update: the spawn-timing reading advances
    /// to the clock's, nothing else changes.
    pub open spec fn spec_updated(self, elapsed_ms: u64) -> EmitterUniform {
        EmitterUniform { elapsed_ms, ..self }
    }

    /// Advances the spawn-timing reading to the clock's.
    pub fn update(&mut self, clock: &Clock)
        ensures
            *final(self) == old(self).spec_updated(clock.last_update_ns / 1_000_000),
    {
        self.elapsed_ms = clock.elapsed_ms();
    }

    /// The words uploaded to the emitter's uniform buffer each frame.
    pub open spec fn spec_buffer_content(&self) -> Seq<i64> {
        seq![
            self.particle_count as i64,
            self.spawn_count as i64,
            self.spawn_delay_ms as i64,
            self.particle_lifetime_ms as i64,
            self.box_position.x,
            self.box_position.y,
            self.box_position.z,
            self.box_dimensions.x,
            self.box_dimensions.y,
            self.box_dimensions.z,
            self.box_rotation_mdeg.x,
            self.box_rotation_mdeg.y,
            self.box_rotation_mdeg.z,
            self.diff_width_mdeg,
            self.diff_depth_mdeg,
            self.particle_speed_min,
            self.particle_speed_max,
            self.particle_size_min,
            self.particle_size_max,
        ]
    }

    /// The words uploaded to the emitter's uniform buffer.
    pub fn create_buffer_content(&self) -> (r: Vec<i64>)
        requires
            self.wf(),
        ensures
            r@ == self.spec_buffer_content(),
    {
        let r = vec![
            self.particle_count as i64,
            self.spawn_count as i64,
            self.spawn_delay_ms as i64,
            self.particle_lifetime_ms as i64,
            self.box_position.x,
            self.box_position.y,
            self.box_position.z,
            self.box_dimensions.x,
            self.box_dimensions.y,
            self.box_dimensions.z,
            self.box_rotation_mdeg.x,
            self.box_rotation_mdeg.y,
            self.box_rotation_mdeg.z,
            self.diff_width_mdeg,
            self.diff_depth_mdeg,
            self.particle_speed_min,
            self.particle_speed_max,
            self.particle_size_min,
            self.particle_size_max,
        ];
        proof {
            assert(r@ =~= self.spec_buffer_content());
        }
        r
    }

    /// The bytes uploaded to the emitter's uniform buffer: eight per word,
    /// in the device's native order.
    pub fn create_buffer_bytes(&self) -> (r: Vec<u8>)
        requires
            self.wf(),
        ensures
            r@.len() == 152,
    {
        let words = self.create_buffer_content();
        crate::bytes::words_as_bytes(&words)
    }
}

/// Construction input for a new emitter.
pub struct CreateEmitterOptions<'a> {
    pub uniform: EmitterUniform,
    pub collection: &'a AssetCollection,
    pub emitter_type: EmitterType,
}

/// One emitter's full simulation state.
#[derive(Debug)]
pub struct EmitterState {
    pub uniform: EmitterUniform,
    /// The two particle storage buffers, modelled byte for byte. At any
    /// frame one is read and the other written, by parity.
    pub particle_buffers: Vec<Vec<u8>>,
    /// Workgroup rows of the simulation kernel.
    pub dispatch_x_count: u32,
    pub particle_animations: Vec<ParticleAnimation>,
    pub emitter_animations: Vec<EmitterAnimation>,
    pub is_light: bool,
    /// Number of emitter-uniform uploads issued so far.
    pub uniform_uploads: u64,
}

/// Copies the overlapping prefix of `src` into `dst`; bytes past the
/// overlap keep their old value.
fn copy_overlap(dst: &mut Vec<u8>, src: &Vec<u8>)
    ensures
        final(dst)@.len() == old(dst)@.len(),
        forall|q: int|
            0 <= q < old(dst)@.len() && q < src@.len() ==> final(dst)@[q] == src@[q],
        forall|q: int|
            src@.len() <= q < old(dst)@.len() ==> final(dst)@[q] == old(dst)@[q],
{
    let n = if src.len() < dst.len() {
        src.len()
    } else {
        dst.len()
    };
    let ghost dst0 = dst@;
    let mut k: usize = 0;
    while k < n
        invariant
            k <= n,
            n <= src@.len(),
            n <= dst@.len(),
            dst@.len() == dst0.len(),
            forall|q: int| 0 <= q < k ==> dst@[q] == src@[q],
            forall|q: int| k <= q < dst0.len() ==> dst@[q] == dst0[q],
        decreases n - k,
    {
        dst.set(k, src[k]);
        k = k + 1;
    }
}

/// A zero-initialized byte buffer.
fn zero_buffer(n: usize) -> (r: Vec<u8>)
    ensures
        r@.len() == n,
        forall|i: int| 0 <= i < n ==> r@[i] == 0,
{
    let mut v: Vec<u8> = Vec::new();
    let mut i: usize = 0;
    while i < n
        invariant
            i <= n,
            v@.len() == i,
            forall|j: int| 0 <= j < i ==> v@[j] == 0,
        decreases n - i,
    {
        v.push(0u8);
        i = i + 1;
    }
    v
}

impl EmitterState {
    /// Structural soundness: buffer pair sized for the particle count, the
    /// dispatch width derived from it.
    pub open spec fn wf(&self) -> bool {
        &&& self.uniform.wf()
        &&& self.dispatch_x_count == spec_dispatch_x(self.uniform.particle_count)
        &&& self.particle_buffers@.len() == 2
        &&& forall|b: int|
            0 <= b < 2 ==> (#[trigger] self.particle_buffers@[b])@.len()
                == self.uniform.particle_count * PARTICLE_RECORD_BYTES
    }

    /// The emitter's id.
    pub fn id(&self) -> (r: &str)
        ensures
            r@ == self.uniform.id@,
    {
        self.uniform.id.as_str()
    }

    pub fn particle_count(&self) -> (r: u64)
        ensures
            r == self.uniform.particle_count,
    {
        self.uniform.particle_count()
    }

    /// Attaches a particle animation at the end of the registration order.
    pub fn push_particle_animation(&mut self, animation: ParticleAnimation)
        ensures
            final(self).particle_animations@ == old(self).particle_animations@.push(animation),
            final(self).uniform == old(self).uniform,
            final(self).particle_buffers == old(self).particle_buffers,
            final(self).dispatch_x_count == old(self).dispatch_x_count,
            final(self).emitter_animations == old(self).emitter_animations,
            final(self).is_light == old(self).is_light,
            final(self).uniform_uploads == old(self).uniform_uploads,
    {
        self.particle_animations.push(animation);
    }

    /// Attaches an emitter animation at the end of the registration order.
    pub fn push_emitter_animation(&mut self, animation: EmitterAnimation)
        ensures
            final(self).emitter_animations@ == old(self).emitter_animations@.push(animation),
            final(self).uniform == old(self).uniform,
            final(self).particle_buffers == old(self).particle_buffers,
            final(self).dispatch_x_count == old(self).dispatch_x_count,
            final(self).particle_animations == old(self).particle_animations,
            final(self).is_light == old(self).is_light,
            final(self).uniform_uploads == old(self).uniform_uploads,
    {
        self.emitter_animations.push(animation);
    }

    /// Builds a new emitter: fails — inserting nothing — when a referenced
    /// asset key is not loaded; otherwise the particle buffer pair starts
    /// zero-initialized at the size the parameter record demands, with no
    /// animations attached.
    pub fn new(options: CreateEmitterOptions<'_>) -> (r: Result<EmitterState, ConstructionError>)
        requires
            options.uniform.wf(),
        ensures
            r is Ok <==> (options.collection.spec_contains(options.uniform.mesh.collection_id@)
                && options.collection.spec_contains(options.uniform.material.collection_id@)),
            r matches Ok(e) ==> {
                &&& e.uniform == options.uniform
                &&& e.dispatch_x_count == spec_dispatch_x(options.uniform.particle_count)
                &&& e.particle_buffers@.len() == 2
                &&& forall|b: int|
                    0 <= b < 2 ==> (#[trigger] e.particle_buffers@[b])@.len()
                        == options.uniform.particle_count * PARTICLE_RECORD_BYTES
                &&& forall|b: int, j: int|
                    0 <= b < 2 && 0 <= j < options.uniform.particle_count * PARTICLE_RECORD_BYTES
                        ==> (#[trigger] e.particle_buffers@[b]@[j]) == 0
                &&& e.particle_animations@ == Seq::<ParticleAnimation>::empty()
                &&& e.emitter_animations@ == Seq::<EmitterAnimation>::empty()
                &&& e.is_light == (options.emitter_type is Lights)
                &&& e.uniform_uploads == 0
                &&& e.wf()
            },
            !options.collection.spec_contains(options.uniform.mesh.collection_id@) ==> (r matches Err(
                ConstructionError::UnknownAssetKey { key },
            ) && key@ == options.uniform.mesh.collection_id@),
            (options.collection.spec_contains(options.uniform.mesh.collection_id@)
                && !options.collection.spec_contains(options.uniform.material.collection_id@)) ==> (
            r matches Err(ConstructionError::UnknownAssetKey { key }) && key@
                == options.uniform.material.collection_id@),
    {
        let uniform = options.uniform;
        if !options.collection.contains(&uniform.mesh.collection_id) {
            return Err(ConstructionError::UnknownAssetKey { key: uniform.mesh.collection_id });
        }
        if !options.collection.contains(&uniform.material.collection_id) {
            return Err(ConstructionError::UnknownAssetKey { key: uniform.material.collection_id });
        }

        let size64 = uniform.particle_buffer_size();
        let size = size64 as usize;
        let mut particle_buffers: Vec<Vec<u8>> = Vec::new();
        particle_buffers.push(zero_buffer(size));
        particle_buffers.push(zero_buffer(size));

        let count = uniform.particle_count;
        let dispatch_x_count = ((count + (WORKGROUP_SIZE - 1)) / WORKGROUP_SIZE) as u32;

        Ok(
            EmitterState {
                uniform,
                particle_buffers,
                dispatch_x_count,
                particle_animations: Vec::new(),
                emitter_animations: Vec::new(),
                is_light: matches!(options.emitter_type, EmitterType::Lights),
                uniform_uploads: 0,
            },
        )
    }

    /// The dispatches the particle animations from position `j` on
    /// contribute to a frame's compute pass: each enabled animation may add
    /// one, in registration order.
    pub open spec fn spec_anim_dispatches(
        anims: Seq<ParticleAnimation>,
        dispatch_x_count: u32,
        frame: nat,
        j: int,
    ) -> Seq<DispatchRecord>
        decreases anims.len() - j,
        when 0 <= j <= anims.len()
    {
        if j >= anims.len() {
            Seq::empty()
        } else {
            let rest = Self::spec_anim_dispatches(anims, dispatch_x_count, frame, j + 1);
            if anims[j].spec_enabled() {
                match anims[j].spec_compute(dispatch_x_count, frame) {
                    Some(r) => seq![r] + rest,
                    None => rest,
                }
            } else {
                rest
            }
        }
    }

    /// The dispatches one emitter contributes to a frame's compute pass:
    /// the simulation kernel bound to the frame parity, then its enabled
    /// particle animations against the buffer that kernel just produced.
    pub open spec fn spec_emitter_dispatches(em: EmitterState, frame: nat) -> Seq<DispatchRecord> {
        seq![
            DispatchRecord {
                bind_group_nr: spec_parity(frame) as usize,
                count_x: em.dispatch_x_count,
                count_y: 1,
                count_z: 1,
            },
        ] + Self::spec_anim_dispatches(em.particle_animations@, em.dispatch_x_count, frame, 0)
    }

    /// The whole compute pass of a frame: every emitter's dispatches, in
    /// registration order, from position `i` on.
    pub open spec fn spec_compute_plan(
        emitters: Seq<EmitterState>,
        frame: nat,
        i: int,
    ) -> Seq<DispatchRecord>
        decreases emitters.len() - i,
        when 0 <= i <= emitters.len()
    {
        if i >= emitters.len() {
            Seq::empty()
        } else {
            Self::spec_emitter_dispatches(emitters[i], frame) + Self::spec_compute_plan(
                emitters,
                frame,
                i + 1,
            )
        }
    }

    /// Plans the frame's simulation compute pass: for each emitter in
    /// registration order, one simulation dispatch on the current parity,
    /// then the dispatches of its enabled particle animations.
    pub fn compute_particles(emitters: &Vec<EmitterState>, clock: &Clock) -> (r: Vec<
        DispatchRecord,
    >)
        ensures
            r@ == Self::spec_compute_plan(emitters@, clock.frame as nat, 0),
    {
        let ghost frame = clock.frame as nat;
        let nr = clock.get_bindgroup_nr();
        let mut out: Vec<DispatchRecord> = Vec::new();
        proof {
            assert(out@ + Self::spec_compute_plan(emitters@, frame, 0) =~= Self::spec_compute_plan(
                emitters@,
                frame,
                0,
            ));
        }
        let mut i: usize = 0;
        while i < emitters.len()
            invariant
                i <= emitters@.len(),
                nr == spec_parity(frame),
                frame == clock.frame as nat,
                out@ + Self::spec_compute_plan(emitters@, frame, i as int)
                    == Self::spec_compute_plan(emitters@, frame, 0),
            decreases emitters@.len() - i,
        {
            let em = &emitters[i];
            let ghost base = out@;
            out.push(
                DispatchRecord {
                    bind_group_nr: nr,
                    count_x: em.dispatch_x_count,
                    count_y: 1,
                    count_z: 1,
                },
            );
            let ghost anims = em.particle_animations@;
            let mut j: usize = 0;
            proof {
                assert(out@ + Self::spec_anim_dispatches(anims, em.dispatch_x_count, frame, 0)
                    =~= base + Self::spec_emitter_dispatches(emitters@[i as int], frame));
            }
            while j < em.particle_animations.len()
                invariant
                    j <= anims.len(),
                    anims == em.particle_animations@,
                    em == emitters@[i as int],
                    0 <= i < emitters@.len(),
                    frame == clock.frame as nat,
                    out@ + Self::spec_anim_dispatches(anims, em.dispatch_x_count, frame, j as int)
                        == base + Self::spec_emitter_dispatches(emitters@[i as int], frame),
                decreases anims.len() - j,
            {
                let anim = &em.particle_animations[j];
                if anim.enabled() {
                    match anim.compute(em.dispatch_x_count, clock) {
                        Some(rec) => {
                            let ghost pre = out@;
                            out.push(rec);
                            proof {
                                assert(out@ + Self::spec_anim_dispatches(
                                    anims,
                                    em.dispatch_x_count,
                                    frame,
                                    j + 1,
                                ) =~= pre + Self::spec_anim_dispatches(
                                    anims,
                                    em.dispatch_x_count,
                                    frame,
                                    j as int,
                                ));
                            }
                        },
                        None => {
                        },
                    }
                }
                j = j + 1;
            }
            proof {
                assert(out@ + Self::spec_compute_plan(emitters@, frame, i + 1)
                    =~= base + Self::spec_emitter_dispatches(emitters@[i as int], frame)
                    + Self::spec_compute_plan(emitters@, frame, i + 1));
                assert(base + Self::spec_emitter_dispatches(emitters@[i as int], frame)
                    + Self::spec_compute_plan(emitters@, frame, i + 1) =~= base
                    + Self::spec_compute_plan(emitters@, frame, i as int));
            }
            i = i + 1;
        }
        proof {
            assert(out@ + Self::spec_compute_plan(emitters@, frame, emitters@.len() as int) =~= out@);
        }
        out
    }

    /// The whole render pass of a frame: one instanced draw per emitter, in
    /// registration order (the light emitter is registered first), each
    /// sampling the alternate parity — the buffer this frame's simulation
    /// just produced — and each non-light emitter additionally binding the
    /// light emitter's buffer.
    pub open spec fn spec_render_plan(emitters: Seq<EmitterState>, frame: nat) -> Seq<DrawRecord> {
        Seq::new(
            emitters.len(),
            |i: int|
                DrawRecord {
                    bind_group_nr: spec_alt_parity(frame) as usize,
                    instance_count: emitters[i].uniform.particle_count,
                    binds_light_buffer: !emitters[i].is_light,
                },
        )
    }

    /// Plans the frame's render pass.
    pub fn render_particles(emitters: &Vec<EmitterState>, clock: &Clock) -> (r: Vec<DrawRecord>)
        ensures
            r@ == Self::spec_render_plan(emitters@, clock.frame as nat),
    {
        let nr = clock.get_alt_bindgroup_nr();
        let mut out: Vec<DrawRecord> = Vec::new();
        let mut i: usize = 0;
        while i < emitters.len()
            invariant
                i <= emitters@.len(),
                nr == spec_alt_parity(clock.frame as nat),
                out@.len() == i,
                forall|k: int|
                    0 <= k < i ==> out@[k] == (DrawRecord {
                        bind_group_nr: spec_alt_parity(clock.frame as nat) as usize,
                        instance_count: emitters@[k].uniform.particle_count,
                        binds_light_buffer: !emitters@[k].is_light,
                    }),
            decreases emitters@.len() - i,
        {
            let em = &emitters[i];
            out.push(
                DrawRecord {
                    bind_group_nr: nr,
                    instance_count: em.particle_count(),
                    binds_light_buffer: !em.is_light,
                },
            );
            i = i + 1;
        }
        proof {
            assert(out@ =~= Self::spec_render_plan(emitters@, clock.frame as nat));
        }
        out
    }

    /// Rebuilds an emitter whose structure changed (particle count, mesh):
    /// a brand-new state is constructed for the same parameters, the
    /// overlapping byte range of each old particle buffer is carried over
    /// (the rest stays zero-initialized), every particle animation is
    /// rebuilt against the new emitter with its parameter values preserved,
    /// and the emitter animations transfer by ownership move.
    pub fn recreate_emitter(
        old_self: EmitterState,
        collection: &AssetCollection,
        emitter_type: EmitterType,
    ) -> (r: EmitterState)
        requires
            old_self.uniform.wf(),
            old_self.particle_buffers@.len() == 2,
            collection.spec_contains(old_self.uniform.mesh.collection_id@),
            collection.spec_contains(old_self.uniform.material.collection_id@),
        ensures
            r.uniform == old_self.uniform,
            r.dispatch_x_count == spec_dispatch_x(old_self.uniform.particle_count),
            r.particle_buffers@.len() == 2,
            forall|b: int|
                0 <= b < 2 ==> (#[trigger] r.particle_buffers@[b])@.len()
                    == old_self.uniform.particle_count * PARTICLE_RECORD_BYTES,
            forall|b: int, k: int|
                0 <= b < 2 && 0 <= k < old_self.uniform.particle_count * PARTICLE_RECORD_BYTES && k
                    < old_self.particle_buffers@[b]@.len() ==> (
                #[trigger] r.particle_buffers@[b]@[k]) == old_self.particle_buffers@[b]@[k],
            forall|b: int, k: int|
                0 <= b < 2 && old_self.particle_buffers@[b]@.len() <= k
                    < old_self.uniform.particle_count * PARTICLE_RECORD_BYTES ==> (
                #[trigger] r.particle_buffers@[b]@[k]) == 0,
            r.particle_animations@ == old_self.particle_animations@.map_values(
                |a: ParticleAnimation| a.spec_recreated(),
            ),
            r.emitter_animations@ == old_self.emitter_animations@,
            r.is_light == (emitter_type is Lights),
            r.uniform_uploads == 0,
            r.wf(),
    {
        let EmitterState {
            uniform,
            particle_buffers: old_buffers,
            particle_animations: old_anims,
            emitter_animations,
            ..
        } = old_self;

        let mut new_self = match EmitterState::new(
            CreateEmitterOptions { uniform, collection, emitter_type },
        ) {
            Ok(e) => e,
            Err(_) => unreached(),
        };

        let ghost new_size = new_self.uniform.particle_count * PARTICLE_RECORD_BYTES;
        let mut b: usize = 0;
        while b < 2
            invariant
                b <= 2,
                old_buffers@.len() == 2,
                new_self.particle_buffers@.len() == 2,
                new_size == new_self.uniform.particle_count * PARTICLE_RECORD_BYTES,
                forall|x: int|
                    0 <= x < 2 ==> (#[trigger] new_self.particle_buffers@[x])@.len() == new_size,
                forall|x: int, k: int|
                    0 <= x < b && 0 <= k < new_size && k < old_buffers@[x]@.len() ==> (
                    #[trigger] new_self.particle_buffers@[x]@[k]) == old_buffers@[x]@[k],
                forall|x: int, k: int|
                    (b <= x < 2 || old_buffers@[x]@.len() <= k) && 0 <= x < 2 && 0 <= k < new_size
                        ==> (#[trigger] new_self.particle_buffers@[x]@[k]) == 0,
                new_self.uniform == old_self.uniform,
                new_self.dispatch_x_count == spec_dispatch_x(old_self.uniform.particle_count),
                new_self.particle_animations@ == Seq::<ParticleAnimation>::empty(),
                new_self.emitter_animations@ == Seq::<EmitterAnimation>::empty(),
                new_self.is_light == (emitter_type is Lights),
                new_self.uniform_uploads == 0,
                old_buffers@ == old_self.particle_buffers@,
            decreases 2 - b,
        {
            let ghost pre = new_self.particle_buffers@;
            copy_overlap(&mut new_self.particle_buffers[b], &old_buffers[b]);
            proof {
                assert(new_self.particle_buffers@.len() == 2);
                assert forall|x: int, k: int|
                    ((b + 1) <= x < 2 || old_buffers@[x]@.len() <= k) && 0 <= x < 2 && 0 <= k
                        < new_size implies (#[trigger] new_self.particle_buffers@[x]@[k]) == 0 by {
                    if x == b {
                        assert(pre[x]@[k] == 0);
                    } else {
                        assert(new_self.particle_buffers@[x] == pre[x]);
                        assert(pre[x]@[k] == 0);
                    }
                }
                assert forall|x: int, k: int|
                    0 <= x < (b + 1) && 0 <= k < new_size && k
                        < old_buffers@[x]@.len() implies (#[trigger] new_self.particle_buffers@[x]@[k])
                    == old_buffers@[x]@[k] by {
                    if x == b {
                    } else {
                        assert(new_self.particle_buffers@[x] == pre[x]);
                    }
                }
            }
            b = b + 1;
        }

        let mut a: usize = 0;
        while a < old_anims.len()
            invariant
                a <= old_anims@.len(),
                new_self.particle_animations@ == old_anims@.subrange(0, a as int).map_values(
                    |x: ParticleAnimation| x.spec_recreated(),
                ),
                new_self.uniform == old_self.uniform,
                new_self.dispatch_x_count == spec_dispatch_x(old_self.uniform.particle_count),
                new_self.particle_buffers@.len() == 2,
                forall|x: int|
                    0 <= x < 2 ==> (#[trigger] new_self.particle_buffers@[x])@.len() == new_size,
                forall|x: int, k: int|
                    0 <= x < 2 && 0 <= k < new_size && k < old_self.particle_buffers@[x]@.len()
                        ==> (#[trigger] new_self.particle_buffers@[x]@[k])
                        == old_self.particle_buffers@[x]@[k],
                forall|x: int, k: int|
                    0 <= x < 2 && old_self.particle_buffers@[x]@.len() <= k < new_size ==> (
                    #[trigger] new_self.particle_buffers@[x]@[k]) == 0,
                new_size == new_self.uniform.particle_count * PARTICLE_RECORD_BYTES,
                new_self.emitter_animations@ == Seq::<EmitterAnimation>::empty(),
                new_self.is_light == (emitter_type is Lights),
                new_self.uniform_uploads == 0,
            decreases old_anims@.len() - a,
        {
            let ghost pre = new_self.particle_animations@;
            let rebuilt = old_anims[a].recreate();
            new_self.push_particle_animation(rebuilt);
            proof {
                assert(new_self.particle_animations@ =~= old_anims@.subrange(0, a + 1).map_values(
                    |x: ParticleAnimation| x.spec_recreated(),
                ));
            }
            a = a + 1;
        }
        proof {
            assert(old_anims@.subrange(0, old_anims@.len() as int) =~= old_anims@);
            assert(new_self.particle_animations@ =~= old_anims@.map_values(
                |x: ParticleAnimation| x.spec_recreated(),
            ));
        }

        new_self.emitter_animations = emitter_animations;
        new_self
    }
}

} // verus!
