//! Particle- and emitter-level animations.
//!
//! Each animation kind owns a plain parameter record (its "uniform"), a
//! timeline, an enabled flag and a pending list action. A particle
//! animation is updated once per frame: it re-evaluates its timeline and,
//! only while active, recomputes its parameters and uploads them (the
//! upload counter models the queue write). Its compute step contributes one
//! dispatch record bound to the current frame parity. An emitter animation
//! instead mutates the owning emitter's parameters directly and owns no
//! buffer of its own.
//!
//! The kinds form a closed set, so dispatch is an exhaustive match.

use crate::clock::{spec_parity, Clock};
use crate::emitter::EmitterUniform;
use crate::lifecycle::LifeCycle;
use crate::list_action::{HandleAction, ListAction};
use crate::math::{lerp_vec3, saturating_inc, spec_lerp, spec_saturating_inc, Vec3i};
use crate::plan::DispatchRecord;
use vstd::prelude::*;

verus! {

/// Parameters of the gravity-well animation: a point mass travelling from
/// `start_pos` to `end_pos` across the active window of its timeline.
/// Scalar magnitudes are in micro-units.
#[derive(Clone, Copy, Debug, PartialEq, Eq, Structural)]
pub struct GravityUniform {
    pub life_cycle: LifeCycle,
    /// Attraction strength, micro-newtons.
    pub gravitational_force: i64,
    /// Radius around the mass excluded from extreme pulls, micro-units.
    pub dead_zone: i64,
    /// The attracting mass, micro-mass-units.
    pub mass: i64,
    /// Whether the timeline was active at the last update.
    pub should_animate: bool,
    pub start_pos: Vec3i,
    pub end_pos: Vec3i,
    /// Interpolated position at the last active update.
    pub current_pos: Vec3i,
}

impl GravityUniform {
    /// Positions inside the interpolation-safe coordinate range.
    pub open spec fn wf(&self) -> bool {
        self.start_pos.bounded() && self.end_pos.bounded() && self.current_pos.bounded()
    }

    /// The words uploaded to the animation's parameter buffer.
    pub open spec fn spec_buffer_content(&self) -> Seq<i64> {
        seq![
            self.gravitational_force,
            self.dead_zone,
            self.mass,
            self.current_pos.x,
            self.current_pos.y,
            self.current_pos.z,
        ]
    }

    pub fn new(props: GravityUniformOptions) -> (r: GravityUniform)
        ensures
            r.life_cycle == props.life_cycle,
            r.gravitational_force == props.gravitational_force,
            r.dead_zone == props.dead_zone,
            r.mass == props.mass,
            r.start_pos == props.start_pos,
            r.end_pos == props.end_pos,
            r.current_pos == props.start_pos,
            !r.should_animate,
    {
        GravityUniform {
            life_cycle: props.life_cycle,
            gravitational_force: props.gravitational_force,
            dead_zone: props.dead_zone,
            mass: props.mass,
            should_animate: false,
            start_pos: props.start_pos,
            end_pos: props.end_pos,
            current_pos: props.start_pos,
        }
    }

    /// The words uploaded to the animation's parameter buffer.
    pub fn create_buffer_content(&self) -> (r: Vec<i64>)
        ensures
            r@ == self.spec_buffer_content(),
    {
        let r = vec![
            self.gravitational_force,
            self.dead_zone,
            self.mass,
            self.current_pos.x,
            self.current_pos.y,
            self.current_pos.z,
        ];
        proof {
            assert(r@ =~= self.spec_buffer_content());
        }
        r
    }

    /// The bytes uploaded to the animation's parameter buffer: eight per
    /// word, in the device's native order.
    pub fn create_buffer_bytes(&self) -> (r: Vec<u8>)
        ensures
            r@.len() == 48,
    {
        let words = self.create_buffer_content();
        crate::bytes::words_as_bytes(&words)
    }
}

impl Default for GravityUniform {
    /// A well of one million mass units pulling at one hundredth of a
    /// micro-newton, sweeping left to right over the first half of a
    /// twelve-second looping timeline.
    fn default() -> (r: GravityUniform)
        ensures
            r.life_cycle == (LifeCycle { from_ms: 0, until_ms: 6_000, lifetime_ms: 12_000 }),
            r.gravitational_force == 10_000,
            r.dead_zone == 4_000_000,
            r.mass == 1_000_000_000_000,
            r.start_pos == (Vec3i { x: -25_000_000i64, y: 8_000_000, z: 0 }),
            r.end_pos == (Vec3i { x: 25_000_000, y: 8_000_000, z: 0 }),
            r.current_pos == r.start_pos,
            !r.should_animate,
            r.wf(),
    {
        GravityUniform {
            life_cycle: LifeCycle { from_ms: 0, until_ms: 6_000, lifetime_ms: 12_000 },
            gravitational_force: 10_000,
            dead_zone: 4_000_000,
            mass: 1_000_000_000_000,
            should_animate: false,
            start_pos: Vec3i { x: -25_000_000i64, y: 8_000_000, z: 0 },
            end_pos: Vec3i { x: 25_000_000, y: 8_000_000, z: 0 },
            current_pos: Vec3i { x: -25_000_000i64, y: 8_000_000, z: 0 },
        }
    }
}

/// Construction parameters for a gravity uniform.
pub struct GravityUniformOptions {
    pub gravitational_force: i64,
    pub dead_zone: i64,
    pub mass: i64,
    pub life_cycle: LifeCycle,
    pub start_pos: Vec3i,
    pub end_pos: Vec3i,
}

/// A gravity animation attached to one emitter. The upload counter stands
/// for the number of parameter-buffer writes issued so far.
#[derive(Clone, Copy, Debug, PartialEq, Eq, Structural)]
pub struct GravityAnimation {
    pub uniform: GravityUniform,
    pub selected_action: ListAction,
    pub enabled: bool,
    pub uploads: u64,
}

impl GravityAnimation {
    /// A fresh instance for a uniform: enabled, no pending action, no
    /// uploads yet.
    pub fn new(uniform: GravityUniform) -> (r: GravityAnimation)
        ensures
            r == (GravityAnimation {
                uniform,
                selected_action: ListAction::Idle,
                enabled: true,
                uploads: 0,
            }),
    {
        GravityAnimation { uniform, selected_action: ListAction::Idle, enabled: true, uploads: 0 }
    }

    /// Safe to update: positions inside the interpolation range.
    pub open spec fn update_ok(&self) -> bool {
        self.uniform.wf()
    }

    /// The state after one per-frame update at the given elapsed reading:
    /// the active flag is re-evaluated; while active the position is
    /// re-interpolated and one upload is recorded, otherwise nothing else
    /// changes.
    pub open spec fn spec_updated(self, elapsed_ms: u64) -> GravityAnimation {
        let current = self.uniform.life_cycle.spec_current(elapsed_ms);
        if self.uniform.life_cycle.spec_active(current) {
            let t = self.uniform.life_cycle.spec_progress_ppm(current);
            GravityAnimation {
                uniform: GravityUniform {
                    should_animate: true,
                    current_pos: Vec3i {
                        x: spec_lerp(
                            self.uniform.start_pos.x as int,
                            self.uniform.end_pos.x as int,
                            t,
                        ) as i64,
                        y: spec_lerp(
                            self.uniform.start_pos.y as int,
                            self.uniform.end_pos.y as int,
                            t,
                        ) as i64,
                        z: spec_lerp(
                            self.uniform.start_pos.z as int,
                            self.uniform.end_pos.z as int,
                            t,
                        ) as i64,
                    },
                    ..self.uniform
                },
                uploads: spec_saturating_inc(self.uploads),
                ..self
            }
        } else {
            GravityAnimation {
                uniform: GravityUniform { should_animate: false, ..self.uniform },
                ..self
            }
        }
    }

    /// Re-evaluates the timeline; while active, moves the mass and uploads
    /// the parameter buffer. While inactive nothing is recomputed and no
    /// upload happens.
    pub fn update(&mut self, clock: &Clock)
        requires
            old(self).update_ok(),
        ensures
            *final(self) == old(self).spec_updated(clock.last_update_ns / 1_000_000),
    {
        let elapsed = clock.elapsed_ms();
        let current = self.uniform.life_cycle.current_ms(elapsed);
        let active = self.uniform.life_cycle.is_active(current);
        self.uniform.should_animate = active;
        if active {
            let t = self.uniform.life_cycle.progress_ppm(current);
            self.uniform.current_pos = lerp_vec3(&self.uniform.start_pos, &self.uniform.end_pos, t);
            self.uploads = saturating_inc(self.uploads);
        }
    }

    /// The dispatch the animation contributes to a frame's compute pass:
    /// one workgroup row over the emitter's particles, bound to the frame
    /// parity — or nothing while the timeline is inactive.
    pub open spec fn spec_compute(&self, dispatch_x_count: u32, frame: nat) -> Option<
        DispatchRecord,
    > {
        if self.uniform.should_animate {
            Some(
                DispatchRecord {
                    bind_group_nr: spec_parity(frame) as usize,
                    count_x: dispatch_x_count,
                    count_y: 1,
                    count_z: 1,
                },
            )
        } else {
            None
        }
    }

    /// Plans this animation's compute dispatch for the current frame.
    pub fn compute(&self, dispatch_x_count: u32, clock: &Clock) -> (r: Option<DispatchRecord>)
        ensures
            r == self.spec_compute(dispatch_x_count, clock.frame as nat),
    {
        if !self.uniform.should_animate {
            return None;
        }
        let nr = clock.get_bindgroup_nr();
        Some(DispatchRecord { bind_group_nr: nr, count_x: dispatch_x_count, count_y: 1, count_z: 1 })
    }

    /// A rebuild against a new emitter: the parameter values carry over,
    /// everything bound to the old emitter's resources starts fresh.
    pub fn recreate(&self) -> (r: GravityAnimation)
        ensures
            r == (GravityAnimation {
                uniform: self.uniform,
                selected_action: ListAction::Idle,
                enabled: true,
                uploads: 0,
            }),
    {
        GravityAnimation::new(self.uniform)
    }
}

/// Registry entry for the gravity animation kind.
#[derive(Clone, Copy)]
pub struct RegisterGravityAnimation;

impl RegisterGravityAnimation {
    /// Appends a gravity animation for the uniform to the emitter.
    pub fn append(uniform: GravityUniform, emitter: &mut crate::emitter::EmitterState)
        ensures
            final(emitter).particle_animations@ == old(emitter).particle_animations@.push(
                ParticleAnimation::Gravity(
                    GravityAnimation {
                        uniform,
                        selected_action: ListAction::Idle,
                        enabled: true,
                        uploads: 0,
                    },
                ),
            ),
            final(emitter).uniform == old(emitter).uniform,
            final(emitter).particle_buffers == old(emitter).particle_buffers,
            final(emitter).dispatch_x_count == old(emitter).dispatch_x_count,
            final(emitter).emitter_animations == old(emitter).emitter_animations,
            final(emitter).is_light == old(emitter).is_light,
            final(emitter).uniform_uploads == old(emitter).uniform_uploads,
    {
        emitter.push_particle_animation(ParticleAnimation::Gravity(GravityAnimation::new(uniform)));
    }

    /// The tag naming this kind in exported configuration.
    pub fn tag(&self) -> (r: &'static str)
        ensures
            r@ == "gravity"@,
    {
        "gravity"
    }

    /// A default-configured instance.
    pub fn create_default(&self) -> (r: ParticleAnimation)
        ensures
            r matches ParticleAnimation::Gravity(g) && g.enabled && g.uploads == 0
                && g.selected_action == ListAction::Idle,
    {
        ParticleAnimation::Gravity(GravityAnimation::new(GravityUniform::default()))
    }
}

/// Parameters of the stray animation: particles scatter within a cone once
/// per window. The angle is in micro-radians; the window is absolute, it
/// never loops.
#[derive(Clone, Copy, Debug, PartialEq, Eq, Structural)]
pub struct StrayUniform {
    /// Scatter angle, micro-radians.
    pub stray_radians: i64,
    pub from_ms: u64,
    pub until_ms: u64,
}

impl StrayUniform {
    /// Window endpoints representable in the buffer's signed words.
    pub open spec fn wf(&self) -> bool {
        self.from_ms <= i64::MAX && self.until_ms <= i64::MAX
    }

    /// The words uploaded to the animation's parameter buffer (one pad
    /// word keeps the stride).
    pub open spec fn spec_buffer_content(&self) -> Seq<i64> {
        seq![self.stray_radians, self.from_ms as i64, self.until_ms as i64, 0]
    }

    /// The words uploaded to the animation's parameter buffer.
    pub fn create_buffer_content(&self) -> (r: Vec<i64>)
        requires
            self.wf(),
        ensures
            r@ == self.spec_buffer_content(),
    {
        let r = vec![self.stray_radians, self.from_ms as i64, self.until_ms as i64, 0i64];
        proof {
            assert(r@ =~= self.spec_buffer_content());
        }
        r
    }

    /// The bytes uploaded to the animation's parameter buffer: eight per
    /// word, in the device's native order.
    pub fn create_buffer_bytes(&self) -> (r: Vec<u8>)
        requires
            self.wf(),
        ensures
            r@.len() == 32,
    {
        let words = self.create_buffer_content();
        crate::bytes::words_as_bytes(&words)
    }
}

impl Default for StrayUniform {
    /// Five degrees of scatter between the first and third second.
    fn default() -> (r: StrayUniform)
        ensures
            r == (StrayUniform { stray_radians: 87_266, from_ms: 1_000, until_ms: 3_000 }),
    {
        StrayUniform { stray_radians: 87_266, from_ms: 1_000, until_ms: 3_000 }
    }
}

/// A stray animation attached to one emitter. Its parameters only change
/// through configuration edits, so an upload happens only when the edit
/// flag is raised.
#[derive(Clone, Copy, Debug, PartialEq, Eq, Structural)]
pub struct StrayAnimation {
    pub uniform: StrayUniform,
    /// Raised by a configuration edit; cleared by the upload it triggers.
    pub update_uniform: bool,
    pub selected_action: ListAction,
    pub enabled: bool,
    pub uploads: u64,
}

impl StrayAnimation {
    /// A fresh instance for a uniform.
    pub fn new(uniform: StrayUniform) -> (r: StrayAnimation)
        ensures
            r == (StrayAnimation {
                uniform,
                update_uniform: false,
                selected_action: ListAction::Idle,
                enabled: true,
                uploads: 0,
            }),
    {
        StrayAnimation {
            uniform,
            update_uniform: false,
            selected_action: ListAction::Idle,
            enabled: true,
            uploads: 0,
        }
    }

    pub open spec fn update_ok(&self) -> bool {
        true
    }

    /// The state after one per-frame update: a pending edit is uploaded
    /// exactly once, anything else is left alone.
    pub open spec fn spec_updated(self) -> StrayAnimation {
        if self.update_uniform {
            StrayAnimation { update_uniform: false, uploads: spec_saturating_inc(self.uploads), ..self }
        } else {
            self
        }
    }

    /// Uploads the parameter buffer iff a configuration edit is pending.
    pub fn update(&mut self, _clock: &Clock)
        requires
            old(self).update_ok(),
        ensures
            *final(self) == old(self).spec_updated(),
    {
        if self.update_uniform {
            self.uploads = saturating_inc(self.uploads);
            self.update_uniform = false;
        }
    }

    /// The dispatch the animation contributes to a frame's compute pass:
    /// it runs every frame.
    pub open spec fn spec_compute(&self, dispatch_x_count: u32, frame: nat) -> Option<
        DispatchRecord,
    > {
        Some(
            DispatchRecord {
                bind_group_nr: spec_parity(frame) as usize,
                count_x: dispatch_x_count,
                count_y: 1,
                count_z: 1,
            },
        )
    }

    /// Plans this animation's compute dispatch for the current frame.
    pub fn compute(&self, dispatch_x_count: u32, clock: &Clock) -> (r: Option<DispatchRecord>)
        ensures
            r == self.spec_compute(dispatch_x_count, clock.frame as nat),
    {
        let nr = clock.get_bindgroup_nr();
        Some(DispatchRecord { bind_group_nr: nr, count_x: dispatch_x_count, count_y: 1, count_z: 1 })
    }

    /// A rebuild against a new emitter, parameter values preserved.
    pub fn recreate(&self) -> (r: StrayAnimation)
        ensures
            r == (StrayAnimation {
                uniform: self.uniform,
                update_uniform: false,
                selected_action: ListAction::Idle,
                enabled: true,
                uploads: 0,
            }),
    {
        StrayAnimation::new(self.uniform)
    }
}

/// Registry entry for the stray animation kind.
#[derive(Clone, Copy)]
pub struct RegisterStrayAnimation;

impl RegisterStrayAnimation {
    /// Appends a stray animation for the uniform to the emitter.
    pub fn append(uniform: StrayUniform, emitter: &mut crate::emitter::EmitterState)
        ensures
            final(emitter).particle_animations@ == old(emitter).particle_animations@.push(
                ParticleAnimation::Stray(
                    StrayAnimation {
                        uniform,
                        update_uniform: false,
                        selected_action: ListAction::Idle,
                        enabled: true,
                        uploads: 0,
                    },
                ),
            ),
            final(emitter).uniform == old(emitter).uniform,
            final(emitter).particle_buffers == old(emitter).particle_buffers,
            final(emitter).dispatch_x_count == old(emitter).dispatch_x_count,
            final(emitter).emitter_animations == old(emitter).emitter_animations,
            final(emitter).is_light == old(emitter).is_light,
            final(emitter).uniform_uploads == old(emitter).uniform_uploads,
    {
        emitter.push_particle_animation(ParticleAnimation::Stray(StrayAnimation::new(uniform)));
    }

    /// The tag naming this kind in exported configuration.
    pub fn tag(&self) -> (r: &'static str)
        ensures
            r@ == "stray"@,
    {
        "stray"
    }

    /// A default-configured instance.
    pub fn create_default(&self) -> (r: ParticleAnimation)
        ensures
            r matches ParticleAnimation::Stray(s) && s.enabled && s.uploads == 0
                && s.selected_action == ListAction::Idle,
    {
        ParticleAnimation::Stray(StrayAnimation::new(StrayUniform::default()))
    }
}

/// A particle animation of any registered kind.
#[derive(Clone, Copy, Debug, PartialEq, Eq, Structural)]
pub enum ParticleAnimation {
    Gravity(GravityAnimation),
    Stray(StrayAnimation),
}

impl ParticleAnimation {
    /// Safe to update.
    pub open spec fn update_ok(&self) -> bool {
        match *self {
            ParticleAnimation::Gravity(g) => g.update_ok(),
            ParticleAnimation::Stray(s) => s.update_ok(),
        }
    }

    /// The state after one per-frame update.
    pub open spec fn spec_updated(self, elapsed_ms: u64) -> ParticleAnimation {
        match self {
            ParticleAnimation::Gravity(g) => ParticleAnimation::Gravity(g.spec_updated(elapsed_ms)),
            ParticleAnimation::Stray(s) => ParticleAnimation::Stray(s.spec_updated()),
        }
    }

    /// Re-evaluates timeline state and uploads parameters when the kind
    /// calls for it.
    pub fn update(&mut self, clock: &Clock)
        requires
            old(self).update_ok(),
        ensures
            *final(self) == old(self).spec_updated(clock.last_update_ns / 1_000_000),
    {
        match self {
            ParticleAnimation::Gravity(g) => g.update(clock),
            ParticleAnimation::Stray(s) => s.update(clock),
        }
    }

    /// The dispatch the animation contributes to a frame's compute pass.
    pub open spec fn spec_compute(&self, dispatch_x_count: u32, frame: nat) -> Option<
        DispatchRecord,
    > {
        match *self {
            ParticleAnimation::Gravity(g) => g.spec_compute(dispatch_x_count, frame),
            ParticleAnimation::Stray(s) => s.spec_compute(dispatch_x_count, frame),
        }
    }

    /// Plans this animation's compute dispatch for the current frame.
    pub fn compute(&self, dispatch_x_count: u32, clock: &Clock) -> (r: Option<DispatchRecord>)
        ensures
            r == self.spec_compute(dispatch_x_count, clock.frame as nat),
    {
        match self {
            ParticleAnimation::Gravity(g) => g.compute(dispatch_x_count, clock),
            ParticleAnimation::Stray(s) => s.compute(dispatch_x_count, clock),
        }
    }

    /// The instance rebuilt against a new emitter: parameter values carry
    /// over, per-emitter state starts fresh.
    pub open spec fn spec_recreated(self) -> ParticleAnimation {
        match self {
            ParticleAnimation::Gravity(g) => ParticleAnimation::Gravity(
                GravityAnimation {
                    uniform: g.uniform,
                    selected_action: ListAction::Idle,
                    enabled: true,
                    uploads: 0,
                },
            ),
            ParticleAnimation::Stray(s) => ParticleAnimation::Stray(
                StrayAnimation {
                    uniform: s.uniform,
                    update_uniform: false,
                    selected_action: ListAction::Idle,
                    enabled: true,
                    uploads: 0,
                },
            ),
        }
    }

    /// Rebuilds the instance against a new emitter.
    pub fn recreate(&self) -> (r: ParticleAnimation)
        ensures
            r == self.spec_recreated(),
    {
        match self {
            ParticleAnimation::Gravity(g) => ParticleAnimation::Gravity(g.recreate()),
            ParticleAnimation::Stray(s) => ParticleAnimation::Stray(s.recreate()),
        }
    }
}

impl HandleAction for ParticleAnimation {
    open spec fn spec_action(&self) -> ListAction {
        match *self {
            ParticleAnimation::Gravity(g) => g.selected_action,
            ParticleAnimation::Stray(s) => s.selected_action,
        }
    }

    open spec fn spec_reset(&self) -> ParticleAnimation {
        match *self {
            ParticleAnimation::Gravity(g) => ParticleAnimation::Gravity(
                GravityAnimation { selected_action: ListAction::Idle, ..g },
            ),
            ParticleAnimation::Stray(s) => ParticleAnimation::Stray(
                StrayAnimation { selected_action: ListAction::Idle, ..s },
            ),
        }
    }

    open spec fn spec_enabled(&self) -> bool {
        match *self {
            ParticleAnimation::Gravity(g) => g.enabled,
            ParticleAnimation::Stray(s) => s.enabled,
        }
    }

    fn selected_action(&self) -> (r: ListAction) {
        match self {
            ParticleAnimation::Gravity(g) => g.selected_action,
            ParticleAnimation::Stray(s) => s.selected_action,
        }
    }

    fn reset_action(&mut self) {
        match self {
            ParticleAnimation::Gravity(g) => g.selected_action = ListAction::Idle,
            ParticleAnimation::Stray(s) => s.selected_action = ListAction::Idle,
        }
    }

    fn enabled(&self) -> (r: bool) {
        match self {
            ParticleAnimation::Gravity(g) => g.enabled,
            ParticleAnimation::Stray(s) => s.enabled,
        }
    }
}

/// Parameters of the sway animation: the emitter's spawn box drifts from
/// `start_pos` to `end_pos` across the active window of its timeline.
#[derive(Clone, Copy, Debug, PartialEq, Eq, Structural)]
pub struct SwayUniform {
    pub life_cycle: LifeCycle,
    pub start_pos: Vec3i,
    pub end_pos: Vec3i,
}

impl SwayUniform {
    pub open spec fn wf(&self) -> bool {
        self.start_pos.bounded() && self.end_pos.bounded()
    }
}

impl Default for SwayUniform {
    /// A gentle two-unit horizontal drift over the first half of a
    /// ten-second looping timeline.
    fn default() -> (r: SwayUniform)
        ensures
            r == (SwayUniform {
                life_cycle: LifeCycle { from_ms: 0, until_ms: 5_000, lifetime_ms: 10_000 },
                start_pos: Vec3i { x: -1_000_000i64, y: 0, z: 0 },
                end_pos: Vec3i { x: 1_000_000, y: 0, z: 0 },
            }),
    {
        SwayUniform {
            life_cycle: LifeCycle { from_ms: 0, until_ms: 5_000, lifetime_ms: 10_000 },
            start_pos: Vec3i { x: -1_000_000i64, y: 0, z: 0 },
            end_pos: Vec3i { x: 1_000_000, y: 0, z: 0 },
        }
    }
}

/// A sway animation attached to one emitter. It writes through the
/// emitter's own parameter buffer and owns no buffer of its own.
#[derive(Clone, Copy, Debug, PartialEq, Eq, Structural)]
pub struct SwayAnimation {
    pub uniform: SwayUniform,
    pub selected_action: ListAction,
    pub enabled: bool,
}

impl SwayAnimation {
    /// A fresh instance for a uniform.
    pub fn new(uniform: SwayUniform) -> (r: SwayAnimation)
        ensures
            r == (SwayAnimation { uniform, selected_action: ListAction::Idle, enabled: true }),
    {
        SwayAnimation { uniform, selected_action: ListAction::Idle, enabled: true }
    }

    /// The emitter parameters after one animate step at the given elapsed
    /// reading: while active the spawn box moves, otherwise they are left
    /// alone.
    pub open spec fn spec_animated(self, em: EmitterUniform, elapsed_ms: u64) -> EmitterUniform {
        let current = self.uniform.life_cycle.spec_current(elapsed_ms);
        if self.uniform.life_cycle.spec_active(current) {
            let t = self.uniform.life_cycle.spec_progress_ppm(current);
            EmitterUniform {
                box_position: Vec3i {
                    x: spec_lerp(
                        self.uniform.start_pos.x as int,
                        self.uniform.end_pos.x as int,
                        t,
                    ) as i64,
                    y: spec_lerp(
                        self.uniform.start_pos.y as int,
                        self.uniform.end_pos.y as int,
                        t,
                    ) as i64,
                    z: spec_lerp(
                        self.uniform.start_pos.z as int,
                        self.uniform.end_pos.z as int,
                        t,
                    ) as i64,
                },
                ..em
            }
        } else {
            em
        }
    }

    /// Mutates the emitter's parameters for this frame; a later animation
    /// in the same frame observes the values written here.
    pub fn animate(&mut self, em: &mut EmitterUniform, clock: &Clock)
        requires
            old(self).uniform.wf(),
        ensures
            *final(self) == *old(self),
            *final(em) == old(self).spec_animated(*old(em), clock.last_update_ns / 1_000_000),
    {
        let elapsed = clock.elapsed_ms();
        let current = self.uniform.life_cycle.current_ms(elapsed);
        if self.uniform.life_cycle.is_active(current) {
            let t = self.uniform.life_cycle.progress_ppm(current);
            em.box_position = lerp_vec3(&self.uniform.start_pos, &self.uniform.end_pos, t);
        }
    }
}

/// Registry entry for the sway animation kind.
#[derive(Clone, Copy)]
pub struct RegisterSwayAnimation;

impl RegisterSwayAnimation {
    /// The tag naming this kind in exported configuration.
    pub fn tag(&self) -> (r: &'static str)
        ensures
            r@ == "sway"@,
    {
        "sway"
    }

    /// A default-configured instance.
    pub fn create_default(&self) -> (r: EmitterAnimation)
        ensures
            r matches EmitterAnimation::Sway(s) && s.enabled && s.selected_action
                == ListAction::Idle,
    {
        EmitterAnimation::Sway(SwayAnimation::new(SwayUniform::default()))
    }
}

/// An emitter animation of any registered kind.
#[derive(Clone, Copy, Debug, PartialEq, Eq, Structural)]
pub enum EmitterAnimation {
    Sway(SwayAnimation),
}

impl EmitterAnimation {
    pub open spec fn wf(&self) -> bool {
        match *self {
            EmitterAnimation::Sway(s) => s.uniform.wf(),
        }
    }

    /// The emitter parameters after this animation's animate step.
    pub open spec fn spec_animated(self, em: EmitterUniform, elapsed_ms: u64) -> EmitterUniform {
        match self {
            EmitterAnimation::Sway(s) => s.spec_animated(em, elapsed_ms),
        }
    }

    /// Mutates the emitter's parameters for this frame.
    pub fn animate(&mut self, em: &mut EmitterUniform, clock: &Clock)
        requires
            old(self).wf(),
        ensures
            *final(self) == *old(self),
            *final(em) == old(self).spec_animated(*old(em), clock.last_update_ns / 1_000_000),
    {
        match self {
            EmitterAnimation::Sway(s) => s.animate(em, clock),
        }
    }
}

impl HandleAction for EmitterAnimation {
    open spec fn spec_action(&self) -> ListAction {
        match *self {
            EmitterAnimation::Sway(s) => s.selected_action,
        }
    }

    open spec fn spec_reset(&self) -> EmitterAnimation {
        match *self {
            EmitterAnimation::Sway(s) => EmitterAnimation::Sway(
                SwayAnimation { selected_action: ListAction::Idle, ..s },
            ),
        }
    }

    open spec fn spec_enabled(&self) -> bool {
        match *self {
            EmitterAnimation::Sway(s) => s.enabled,
        }
    }

    fn selected_action(&self) -> (r: ListAction) {
        match self {
            EmitterAnimation::Sway(s) => s.selected_action,
        }
    }

    fn reset_action(&mut self) {
        match self {
            EmitterAnimation::Sway(s) => s.selected_action = ListAction::Idle,
        }
    }

    fn enabled(&self) -> (r: bool) {
        match self {
            EmitterAnimation::Sway(s) => s.enabled,
        }
    }
}

/// Clearing a particle animation's pending action touches neither its
/// parameters nor its counters, so it stays safe to update.
pub proof fn lemma_reset_preserves_particle_update_ok(a: ParticleAnimation)
    ensures
        a.spec_reset().update_ok() == a.update_ok(),
{
}

/// Clearing an emitter animation's pending action touches none of its
/// parameters.
pub proof fn lemma_reset_preserves_emitter_wf(a: EmitterAnimation)
    ensures
        a.spec_reset().wf() == a.wf(),
{
}

} // verus!
