//! Post-processing effect chain.
//!
//! The chain owns a ping-ponged pair of intermediate render targets sized
//! to the current surface plus a margin, and an ordered list of
//! post-effects. Each frame it plans one compute pass: an initialize step
//! copying the rendered frame into the ping-pong space, then for each
//! enabled effect its own dispatches followed by a blend of its output into
//! the running accumulation — which of the pair is "current" at any stage
//! is a pure function of how many enabled effects precede it, never stored.
//! Resizing recreates every owned target at the new dimensions plus margin
//! while preserving every parameter, and is idempotent.

use crate::list_action::{HandleAction, ListAction};
use crate::math::{saturating_inc, spec_saturating_inc};
use crate::plan::DispatchRecord;
use vstd::prelude::*;

verus! {

/// Workgroup edge, in texels, of every post-process compute kernel.
pub const WORK_GROUP_SIZE: u32 = 8;

/// Largest supported surface edge, in pixels; keeps every derived size in
/// range.
pub const MAX_SURFACE_DIM: u32 = 16_777_216;

/// The surface the chain renders to.
#[derive(Clone, Copy, Debug, PartialEq, Eq, Structural)]
pub struct SurfaceConfig {
    pub width: u32,
    pub height: u32,
}

impl SurfaceConfig {
    /// Dimensions inside the supported range.
    pub open spec fn wf(&self) -> bool {
        self.width <= MAX_SURFACE_DIM && self.height <= MAX_SURFACE_DIM
    }
}

/// The margin, in texels, that every intermediate target extends past the
/// visible rect on each side, so blur kernels can sample outside it.
pub open spec fn spec_fx_offset(c: SurfaceConfig) -> int {
    if c.width / 60 > 32 {
        (c.width / 60) as int
    } else {
        32
    }
}

/// Width of the chain's intermediate targets: the surface plus the margin
/// on both sides.
pub open spec fn spec_fx_width(c: SurfaceConfig) -> int {
    c.width + 2 * spec_fx_offset(c)
}

/// Height of the chain's intermediate targets.
pub open spec fn spec_fx_height(c: SurfaceConfig) -> int {
    c.height + 2 * spec_fx_offset(c)
}

/// Workgroup columns (or rows) needed to cover a texture edge.
pub open spec fn spec_dispatch_count(dim: int) -> int {
    (dim + (WORK_GROUP_SIZE as int) - 1) / (WORK_GROUP_SIZE as int)
}

/// One ping-ponged pair of render targets and the dispatch counts that
/// cover it.
#[derive(Debug)]
pub struct FxState {
    /// Workgroup columns covering the target width.
    pub count_x: u32,
    /// Workgroup rows covering the target height.
    pub count_y: u32,
    /// For debugging purposes.
    pub label: String,
    pub tex_width: u32,
    pub tex_height: u32,
}

/// Construction input for an `FxState`.
pub struct FxStateOptions {
    /// For debugging purposes.
    pub label: String,
    pub tex_width: u32,
    pub tex_height: u32,
}

impl FxState {
    /// Dimensions inside the supported range.
    pub open spec fn wf(&self) -> bool {
        self.count_x == spec_dispatch_count(self.tex_width as int) && self.count_y
            == spec_dispatch_count(self.tex_height as int)
    }

    /// The pair member an index selects.
    pub fn bind_group(&self, idx: usize) -> (r: usize)
        ensures
            r == idx % 2,
    {
        idx % 2
    }

    /// The state after a resize to new target dimensions: the counts are
    /// recomputed, the label is kept.
    pub open spec fn spec_resized(self, w: u32, h: u32) -> FxState {
        FxState {
            count_x: spec_dispatch_count(w as int) as u32,
            count_y: spec_dispatch_count(h as int) as u32,
            tex_width: w,
            tex_height: h,
            label: self.label,
        }
    }

    /// Recreates both targets at new dimensions and recomputes the
    /// dispatch counts from them; nothing stale survives.
    pub fn resize(&mut self, tex_width: u32, tex_height: u32)
        requires
            tex_width <= 3 * MAX_SURFACE_DIM,
            tex_height <= 3 * MAX_SURFACE_DIM,
        ensures
            *final(self) == old(self).spec_resized(tex_width, tex_height),
            final(self).wf(),
    {
        self.count_x = (tex_width + (WORK_GROUP_SIZE - 1)) / WORK_GROUP_SIZE;
        self.count_y = (tex_height + (WORK_GROUP_SIZE - 1)) / WORK_GROUP_SIZE;
        self.tex_width = tex_width;
        self.tex_height = tex_height;
    }

    /// A fresh pair of targets at the given dimensions.
    pub fn new(options: FxStateOptions) -> (r: FxState)
        requires
            options.tex_width <= 3 * MAX_SURFACE_DIM,
            options.tex_height <= 3 * MAX_SURFACE_DIM,
        ensures
            r.count_x == spec_dispatch_count(options.tex_width as int),
            r.count_y == spec_dispatch_count(options.tex_height as int),
            r.tex_width == options.tex_width,
            r.tex_height == options.tex_height,
            r.label == options.label,
            r.wf(),
    {
        FxState {
            count_x: (options.tex_width + (WORK_GROUP_SIZE - 1)) / WORK_GROUP_SIZE,
            count_y: (options.tex_height + (WORK_GROUP_SIZE - 1)) / WORK_GROUP_SIZE,
            label: options.label,
            tex_width: options.tex_width,
            tex_height: options.tex_height,
        }
    }
}

/// Bytes of a little-endian 32-bit word.
pub open spec fn spec_le_bytes(v: int) -> Seq<u8> {
    seq![
        (v % 256) as u8,
        ((v / 256) % 256) as u8,
        ((v / 65536) % 256) as u8,
        ((v / 16777216) % 256) as u8,
    ]
}

/// The margin uniform handed to the initialize and finalize shaders.
#[derive(Clone, Copy, Debug, PartialEq, Eq, Structural)]
pub struct OffsetUniform {
    /// The chain's margin, in texels.
    pub offset: i32,
}

impl OffsetUniform {
    /// The margin for a surface.
    pub fn new(config: &SurfaceConfig) -> (r: OffsetUniform)
        requires
            config.wf(),
        ensures
            r.offset == spec_fx_offset(*config),
    {
        let off = config.width / 60;
        OffsetUniform { offset: if off > 32 { off as i32 } else { 32 } }
    }

    /// The bytes uploaded to the margin uniform's buffer.
    pub fn buffer_content(&self) -> (r: Vec<u8>)
        requires
            self.offset >= 0,
        ensures
            r@ == spec_le_bytes(self.offset as int),
    {
        let v = self.offset as u32;
        let r = vec![
            (v % 256) as u8,
            ((v / 256) % 256) as u8,
            ((v / 65536) % 256) as u8,
            ((v / 16777216) % 256) as u8,
        ];
        proof {
            assert(r@ =~= spec_le_bytes(self.offset as int));
        }
        r
    }
}

/// How an effect's output is blended into the chain's accumulation.
#[allow(non_camel_case_types)]
#[derive(Clone, Copy, Debug, PartialEq, Eq, Structural)]
pub enum BlendType {
    ADDITIVE,
    BLEND,
    REPLACE,
}

/// An operation the engine refuses to guess at. Invoking it is an error,
/// never a silent substitute.
#[derive(Clone, Copy, Debug, PartialEq, Eq, Structural)]
pub enum UnsupportedOperationError {
    /// The blend mode has no implemented formula.
    UnsupportedBlendMode(BlendType),
}

/// What an effect hands the chain: its blend mode and which member of the
/// effect's own target pair holds the output.
#[derive(Clone, Copy, Debug, PartialEq, Eq, Structural)]
pub struct FxChainOutput {
    pub blend: BlendType,
    pub bind_group_nr: usize,
}

/// Parameters of the bloom effect's internal blur, held in micro-units
/// where the shader takes fractions.
#[derive(Clone, Copy, Debug, PartialEq, Eq, Structural)]
pub struct BloomUniform {
    /// Luminance cut-off for the bright pass, micro-units.
    pub brightness_threshold: i64,
    /// Display gamma, micro-units.
    pub gamma: i64,
    /// Downscale factor: each bloom texel covers this many surface texels.
    pub kernel_size: u32,
    /// Blur reach, in kernel-size steps.
    pub radius: u32,
}

impl BloomUniform {
    pub open spec fn wf(&self) -> bool {
        1 <= self.kernel_size
    }
}

impl Default for BloomUniform {
    /// A soft bloom: low threshold, standard gamma, sixteen-fold
    /// downscale.
    fn default() -> (r: BloomUniform)
        ensures
            r == (BloomUniform {
                brightness_threshold: 200_000,
                gamma: 2_200_000,
                kernel_size: 16,
                radius: 16,
            }),
    {
        BloomUniform { brightness_threshold: 200_000, gamma: 2_200_000, kernel_size: 16, radius: 16 }
    }
}

/// The bloom effect: a bright-pass split into a downscaled target pair,
/// then an even number of alternating blur passes over it.
#[derive(Debug)]
pub struct Bloom {
    pub uniform: BloomUniform,
    /// The effect's own downscaled target pair.
    pub fx_state: FxState,
    /// Number of blur passes; the output lands in pair member
    /// `passes % 2`.
    pub passes: usize,
    /// How the output joins the chain.
    pub blend: BlendType,
    pub selected_action: ListAction,
    pub enabled: bool,
}

/// Edge of a bloom target: the chain dimension shrunk by the kernel size,
/// rounded up.
pub open spec fn spec_bloom_dim(chain_dim: int, kernel_size: u32) -> int
    recommends
        kernel_size >= 1,
{
    (chain_dim + kernel_size - 1) / (kernel_size as int)
}

/// Divides, rounding up.
fn div_ceil_u32(a: u32, b: u32) -> (r: u32)
    requires
        b >= 1,
        a < u32::MAX,
    ensures
        r == (a + b - 1) / (b as int),
        r <= a || (a == 0 && r == 0),
{
    let q = a / b;
    let rem = a % b;
    proof {
        vstd::arithmetic::div_mod::lemma_fundamental_div_mod(a as int, b as int);
        if rem > 0 {
            assert(a + b - 1 == (q as int + 1) * (b as int) + (rem as int - 1)) by (nonlinear_arith)
                requires
                    a as int == (b as int) * (q as int) + rem as int,
            ;
            vstd::arithmetic::div_mod::lemma_fundamental_div_mod_converse(
                a + b - 1,
                b as int,
                q as int + 1,
                rem as int - 1,
            );
            assert(b >= 2) by {
                if b == 1 {
                    assert(a as int % 1int == 0) by (nonlinear_arith);
                }
            }
            assert((b as int) * (q as int) >= 2 * (q as int)) by (nonlinear_arith)
                requires
                    b >= 2,
                    q >= 0,
            ;
        } else {
            assert(a + b - 1 == (q as int) * (b as int) + (b as int - 1)) by (nonlinear_arith)
                requires
                    a as int == (b as int) * (q as int) + rem as int,
                    rem == 0,
            ;
            vstd::arithmetic::div_mod::lemma_fundamental_div_mod_converse(
                a + b - 1,
                b as int,
                q as int,
                b as int - 1,
            );
            vstd::arithmetic::div_mod::lemma_div_is_ordered_by_denominator(a as int, 1, b as int);
        }
    }
    q + (if rem > 0 {
        1u32
    } else {
        0u32
    })
}

impl Bloom {
    pub open spec fn wf(&self) -> bool {
        self.uniform.wf() && self.fx_state.wf()
    }

    /// A default bloom for a surface, its target pair sized from the
    /// chain's dimensions and the downscale kernel.
    pub fn new(config: &SurfaceConfig) -> (r: Bloom)
        requires
            config.wf(),
        ensures
            r.uniform == (BloomUniform {
                brightness_threshold: 200_000,
                gamma: 2_200_000,
                kernel_size: 16,
                radius: 16,
            }),
            r.passes == 8,
            r.blend == BlendType::ADDITIVE,
            r.fx_state.tex_width == spec_bloom_dim(spec_fx_width(*config), 16),
            r.fx_state.tex_height == spec_bloom_dim(spec_fx_height(*config), 16),
            r.enabled,
            r.selected_action == ListAction::Idle,
            r.wf(),
    {
        let uniform = BloomUniform::default();
        let offset = OffsetUniform::new(config);
        let w = config.width + 2 * (offset.offset as u32);
        let h = config.height + 2 * (offset.offset as u32);
        let fx_state = FxState::new(
            FxStateOptions {
                label: "Bloom".to_owned(),
                tex_width: div_ceil_u32(w, uniform.kernel_size),
                tex_height: div_ceil_u32(h, uniform.kernel_size),
            },
        );
        Bloom {
            uniform,
            fx_state,
            passes: 8,
            blend: BlendType::ADDITIVE,
            selected_action: ListAction::Idle,
            enabled: true,
        }
    }

    /// A bloom for a surface, from its serializable configuration.
    pub fn from_settings(config: &SurfaceConfig, settings: BloomSettings) -> (r: Bloom)
        requires
            config.wf(),
            settings.bloom_uniform.wf(),
    ensures
            r.uniform == settings.bloom_uniform,
            r.passes == settings.passes,
            r.blend == BlendType::ADDITIVE,
            r.fx_state.tex_width == spec_bloom_dim(
                spec_fx_width(*config),
                settings.bloom_uniform.kernel_size,
            ),
            r.fx_state.tex_height == spec_bloom_dim(
                spec_fx_height(*config),
                settings.bloom_uniform.kernel_size,
            ),
            r.enabled,
            r.selected_action == ListAction::Idle,
            r.wf(),
    {
        let offset = OffsetUniform::new(config);
        let w = config.width + 2 * (offset.offset as u32);
        let h = config.height + 2 * (offset.offset as u32);
        let fx_state = FxState::new(
            FxStateOptions {
                label: "Bloom".to_owned(),
                tex_width: div_ceil_u32(w, settings.bloom_uniform.kernel_size),
                tex_height: div_ceil_u32(h, settings.bloom_uniform.kernel_size),
            },
        );
        Bloom {
            uniform: settings.bloom_uniform,
            fx_state,
            passes: settings.passes,
            blend: BlendType::ADDITIVE,
            selected_action: ListAction::Idle,
            enabled: true,
        }
    }

    /// The serializable configuration of this instance.
    pub fn export(&self) -> (r: BloomSettings)
        ensures
            r == (BloomSettings { bloom_uniform: self.uniform, passes: self.passes }),
    {
        BloomSettings { bloom_uniform: self.uniform, passes: self.passes }
    }

    /// The dispatches of one bloom computation: the bright-pass split
    /// writing pair member one, then each blur pass alternating over the
    /// pair.
    pub open spec fn spec_compute_records(&self) -> Seq<DispatchRecord> {
        seq![
            DispatchRecord {
                bind_group_nr: 1,
                count_x: self.fx_state.count_x,
                count_y: self.fx_state.count_y,
                count_z: 1,
            },
        ] + Seq::new(
            self.passes as nat,
            |p: int|
                DispatchRecord {
                    bind_group_nr: (p % 2) as usize,
                    count_x: self.fx_state.count_x,
                    count_y: self.fx_state.count_y,
                    count_z: 1,
                },
        )
    }

    /// Plans one bloom computation.
    pub fn compute(&self) -> (r: Vec<DispatchRecord>)
        ensures
            r@ == self.spec_compute_records(),
    {
        let mut out: Vec<DispatchRecord> = Vec::new();
        out.push(
            DispatchRecord {
                bind_group_nr: 1,
                count_x: self.fx_state.count_x,
                count_y: self.fx_state.count_y,
                count_z: 1,
            },
        );
        let mut p: usize = 0;
        while p < self.passes
            invariant
                p <= self.passes,
                out@.len() == 1 + p,
                out@[0] == (DispatchRecord {
                    bind_group_nr: 1,
                    count_x: self.fx_state.count_x,
                    count_y: self.fx_state.count_y,
                    count_z: 1,
                }),
                forall|q: int|
                    1 <= q <= p ==> #[trigger] out@[q] == (DispatchRecord {
                        bind_group_nr: ((q - 1) % 2) as usize,
                        count_x: self.fx_state.count_x,
                        count_y: self.fx_state.count_y,
                        count_z: 1,
                    }),
            decreases self.passes - p,
        {
            out.push(
                DispatchRecord {
                    bind_group_nr: p % 2,
                    count_x: self.fx_state.count_x,
                    count_y: self.fx_state.count_y,
                    count_z: 1,
                },
            );
            p = p + 1;
        }
        proof {
            assert(out@ =~= self.spec_compute_records());
        }
        out
    }

    /// Which member of the pair holds the finished output.
    pub fn output(&self) -> (r: usize)
        ensures
            r == self.passes % 2,
    {
        self.passes % 2
    }

    /// The effect after a resize: its target pair is recreated from the
    /// new chain dimensions and its own kernel, parameters untouched.
    pub open spec fn spec_resized(self, config: SurfaceConfig) -> Bloom {
        Bloom {
            fx_state: self.fx_state.spec_resized(
                spec_bloom_dim(spec_fx_width(config), self.uniform.kernel_size) as u32,
                spec_bloom_dim(spec_fx_height(config), self.uniform.kernel_size) as u32,
            ),
            ..self
        }
    }

    /// Recreates the effect's targets for a new surface.
    pub fn resize(&mut self, config: &SurfaceConfig)
        requires
            config.wf(),
            old(self).uniform.wf(),
        ensures
            *final(self) == old(self).spec_resized(*config),
            final(self).fx_state.wf(),
    {
        let offset = OffsetUniform::new(config);
        let w = config.width + 2 * (offset.offset as u32);
        let h = config.height + 2 * (offset.offset as u32);
        self.fx_state.resize(
            div_ceil_u32(w, self.uniform.kernel_size),
            div_ceil_u32(h, self.uniform.kernel_size),
        );
    }
}

/// The serializable configuration of a bloom effect.
#[derive(Clone, Copy, Debug, PartialEq, Eq, Structural)]
pub struct BloomSettings {
    pub bloom_uniform: BloomUniform,
    pub passes: usize,
}

/// Parameters of the gaussian blur effect, micro-units where the shader
/// takes fractions.
#[derive(Clone, Copy, Debug, PartialEq, Eq, Structural)]
pub struct BlurUniform {
    /// Luminance cut-off, micro-units.
    pub brightness_threshold: i64,
    /// How far to look, in texels.
    pub radius: i32,
    /// Gaussian sigma, micro-units.
    pub sigma: i64,
    /// Output intensity, micro-units.
    pub intensity: i64,
}

impl Default for BlurUniform {
    fn default() -> (r: BlurUniform)
        ensures
            r == (BlurUniform {
                brightness_threshold: 600_000,
                radius: 4,
                sigma: 1_300_000,
                intensity: 1_000_000,
            }),
    {
        BlurUniform { brightness_threshold: 600_000, radius: 4, sigma: 1_300_000, intensity: 1_000_000 }
    }
}

/// The blur variant an instance runs.
#[derive(Clone, Copy, Debug, PartialEq, Eq, Structural)]
pub enum BlurType {
    Gaussian,
    Box,
    Sharpen,
}

/// A deferred request against a blur instance.
#[derive(Clone, Copy, Debug, PartialEq, Eq, Structural)]
pub enum BlurEvent {
    UpdateUniform,
}

/// The serializable configuration of a blur effect.
#[derive(Clone, Copy, Debug, PartialEq, Eq, Structural)]
pub struct BlurSettings {
    pub blur_uniform: BlurUniform,
    pub blur_type: BlurType,
}

/// The gaussian blur effect: one horizontal and one vertical pass over its
/// own target pair.
#[derive(Debug)]
pub struct BlurFx {
    pub blur_uniform: BlurUniform,
    pub blur_type: BlurType,
    /// Raised by a configuration edit; the next update uploads once and
    /// clears it.
    pub update_uniform: Option<BlurEvent>,
    /// How the output joins the chain.
    pub blend: BlendType,
    /// The effect's own target pair.
    pub fx_state: FxState,
    pub selected_action: ListAction,
    pub enabled: bool,
    /// Number of parameter-buffer writes issued so far.
    pub uploads: u64,
}

impl BlurFx {
    pub open spec fn wf(&self) -> bool {
        self.fx_state.wf()
    }

    /// A blur for a surface, from its serializable configuration.
    pub fn new(config: &SurfaceConfig, settings: BlurSettings) -> (r: BlurFx)
        requires
            config.wf(),
        ensures
            r.blur_uniform == settings.blur_uniform,
            r.blur_type == settings.blur_type,
            r.update_uniform is None,
            r.blend == BlendType::ADDITIVE,
            r.fx_state.tex_width == spec_fx_width(*config),
            r.fx_state.tex_height == spec_fx_height(*config),
            r.fx_state.wf(),
            r.selected_action == ListAction::Idle,
            r.enabled,
            r.uploads == 0,
    {
        let offset = OffsetUniform::new(config);
        let w = config.width + 2 * (offset.offset as u32);
        let h = config.height + 2 * (offset.offset as u32);
        BlurFx {
            blur_uniform: settings.blur_uniform,
            blur_type: settings.blur_type,
            update_uniform: None,
            blend: BlendType::ADDITIVE,
            fx_state: FxState::new(
                FxStateOptions { label: "Blur".to_owned(), tex_width: w, tex_height: h },
            ),
            selected_action: ListAction::Idle,
            enabled: true,
            uploads: 0,
        }
    }

    /// The state after one per-frame update: a pending edit is uploaded
    /// exactly once.
    pub open spec fn spec_updated(self) -> BlurFx {
        if self.update_uniform is Some {
            BlurFx { update_uniform: None, uploads: spec_saturating_inc(self.uploads), ..self }
        } else {
            self
        }
    }

    /// Uploads the parameter buffer iff a configuration edit is pending.
    pub fn update(&mut self)
        ensures
            *final(self) == old(self).spec_updated(),
    {
        if self.update_uniform.is_some() {
            self.update_uniform = None;
            self.uploads = saturating_inc(self.uploads);
        }
    }

    /// The dispatches of one blur computation: a horizontal and a vertical
    /// pass — only the gaussian variant is implemented, the others plan
    /// nothing.
    pub open spec fn spec_compute_records(&self) -> Seq<DispatchRecord> {
        if self.blur_type is Gaussian {
            seq![
                DispatchRecord {
                    bind_group_nr: 0,
                    count_x: self.fx_state.count_x,
                    count_y: self.fx_state.count_y,
                    count_z: 1,
                },
                DispatchRecord {
                    bind_group_nr: 1,
                    count_x: self.fx_state.count_x,
                    count_y: self.fx_state.count_y,
                    count_z: 1,
                },
            ]
        } else {
            Seq::empty()
        }
    }

    /// Plans one blur computation.
    pub fn compute(&self) -> (r: Vec<DispatchRecord>)
        ensures
            r@ == self.spec_compute_records(),
    {
        let mut out: Vec<DispatchRecord> = Vec::new();
        if matches!(self.blur_type, BlurType::Gaussian) {
            out.push(
                DispatchRecord {
                    bind_group_nr: 0,
                    count_x: self.fx_state.count_x,
                    count_y: self.fx_state.count_y,
                    count_z: 1,
                },
            );
            out.push(
                DispatchRecord {
                    bind_group_nr: 1,
                    count_x: self.fx_state.count_x,
                    count_y: self.fx_state.count_y,
                    count_z: 1,
                },
            );
        }
        proof {
            assert(out@ =~= self.spec_compute_records());
        }
        out
    }

    /// Which member of the pair holds the finished output: after the even
    /// number of swap passes, the first.
    pub fn output(&self) -> (r: usize)
        ensures
            r == 0,
    {
        0
    }

    /// The effect after a resize: its target pair is recreated at the new
    /// chain dimensions, parameters untouched.
    pub open spec fn spec_resized(self, config: SurfaceConfig) -> BlurFx {
        BlurFx {
            fx_state: self.fx_state.spec_resized(
                spec_fx_width(config) as u32,
                spec_fx_height(config) as u32,
            ),
            ..self
        }
    }

    /// Recreates the effect's targets for a new surface.
    pub fn resize(&mut self, config: &SurfaceConfig)
        requires
            config.wf(),
        ensures
            *final(self) == old(self).spec_resized(*config),
            final(self).fx_state.wf(),
    {
        let offset = OffsetUniform::new(config);
        let w = config.width + 2 * (offset.offset as u32);
        let h = config.height + 2 * (offset.offset as u32);
        self.fx_state.resize(w, h);
    }

    /// The serializable configuration of this instance.
    pub fn export(&self) -> (r: BlurSettings)
        ensures
            r == (BlurSettings { blur_uniform: self.blur_uniform, blur_type: self.blur_type }),
    {
        BlurSettings { blur_uniform: self.blur_uniform, blur_type: self.blur_type }
    }
}

/// Registry entry for the blur effect kind.
#[derive(Clone, Copy)]
pub struct RegisterBlurFx;

impl RegisterBlurFx {
    /// The tag naming this kind in exported configuration.
    pub fn tag(&self) -> (r: &'static str)
        ensures
            r@ == "blur"@,
    {
        "blur"
    }

    /// A default-configured instance for a surface.
    pub fn create_default(&self, config: &SurfaceConfig) -> (r: PostFxItem)
        requires
            config.wf(),
        ensures
            r matches PostFxItem::Blur(b) && b.enabled && b.blur_uniform == (BlurUniform {
                brightness_threshold: 600_000,
                radius: 4,
                sigma: 1_300_000,
                intensity: 1_000_000,
            }) && b.blur_type == BlurType::Gaussian,
    {
        PostFxItem::Blur(
            BlurFx::new(
                config,
                BlurSettings { blur_uniform: BlurUniform::default(), blur_type: BlurType::Gaussian },
            ),
        )
    }
}

/// A post-effect of any registered kind.
#[derive(Debug)]
pub enum PostFxItem {
    Bloom(Bloom),
    Blur(BlurFx),
}

impl PostFxItem {
    pub open spec fn wf(&self) -> bool {
        match *self {
            PostFxItem::Bloom(b) => b.wf(),
            PostFxItem::Blur(b) => b.wf(),
        }
    }

    /// How this effect's output joins the chain.
    pub open spec fn spec_blend(&self) -> BlendType {
        match *self {
            PostFxItem::Bloom(b) => b.blend,
            PostFxItem::Blur(b) => b.blend,
        }
    }

    /// How this effect's output joins the chain.
    pub fn blend(&self) -> (r: BlendType)
        ensures
            r == self.spec_blend(),
    {
        match self {
            PostFxItem::Bloom(b) => b.blend,
            PostFxItem::Blur(b) => b.blend,
        }
    }

    /// The dispatches of one computation of this effect.
    pub open spec fn spec_compute_records(&self) -> Seq<DispatchRecord> {
        match *self {
            PostFxItem::Bloom(b) => b.spec_compute_records(),
            PostFxItem::Blur(b) => b.spec_compute_records(),
        }
    }

    /// Plans one computation of this effect.
    pub fn compute(&self) -> (r: Vec<DispatchRecord>)
        ensures
            r@ == self.spec_compute_records(),
    {
        match self {
            PostFxItem::Bloom(b) => b.compute(),
            PostFxItem::Blur(b) => b.compute(),
        }
    }

    /// The effect after a resize.
    pub open spec fn spec_resized(self, config: SurfaceConfig) -> PostFxItem {
        match self {
            PostFxItem::Bloom(b) => PostFxItem::Bloom(b.spec_resized(config)),
            PostFxItem::Blur(b) => PostFxItem::Blur(b.spec_resized(config)),
        }
    }

    /// Recreates the effect's targets for a new surface.
    pub fn resize(&mut self, config: &SurfaceConfig)
        requires
            config.wf(),
            old(self).wf(),
        ensures
            *final(self) == old(self).spec_resized(*config),
    {
        match self {
            PostFxItem::Bloom(b) => b.resize(config),
            PostFxItem::Blur(b) => b.resize(config),
        }
    }
}

impl HandleAction for PostFxItem {
    open spec fn spec_action(&self) -> ListAction {
        match *self {
            PostFxItem::Bloom(b) => b.selected_action,
            PostFxItem::Blur(b) => b.selected_action,
        }
    }

    open spec fn spec_reset(&self) -> PostFxItem {
        match *self {
            PostFxItem::Bloom(b) => PostFxItem::Bloom(
                Bloom { selected_action: ListAction::Idle, ..b },
            ),
            PostFxItem::Blur(b) => PostFxItem::Blur(
                BlurFx { selected_action: ListAction::Idle, ..b },
            ),
        }
    }

    open spec fn spec_enabled(&self) -> bool {
        match *self {
            PostFxItem::Bloom(b) => b.enabled,
            PostFxItem::Blur(b) => b.enabled,
        }
    }

    fn selected_action(&self) -> (r: ListAction) {
        match self {
            PostFxItem::Bloom(b) => b.selected_action,
            PostFxItem::Blur(b) => b.selected_action,
        }
    }

    fn reset_action(&mut self) {
        match self {
            PostFxItem::Bloom(b) => b.selected_action = ListAction::Idle,
            PostFxItem::Blur(b) => b.selected_action = ListAction::Idle,
        }
    }

    fn enabled(&self) -> (r: bool) {
        match self {
            PostFxItem::Bloom(b) => b.enabled,
            PostFxItem::Blur(b) => b.enabled,
        }
    }
}

/// How many of the first `i` effects are enabled: the pure function that
/// decides which member of the chain's pair any stage reads.
pub open spec fn spec_count_enabled(items: Seq<PostFxItem>, i: int) -> int
    decreases i,
    when i <= items.len()
{
    if i <= 0 {
        0
    } else {
        spec_count_enabled(items, i - 1) + if items[i - 1].spec_enabled() {
            1int
        } else {
            0int
        }
    }
}

/// The post-process chain.
#[derive(Debug)]
pub struct PostProcessState {
    /// The chain's own ping-ponged accumulation pair.
    pub fx_state: FxState,
    /// The effects, in application order.
    pub post_fx: Vec<PostFxItem>,
    pub uniform: OffsetUniform,
    /// Number of margin-uniform uploads issued so far.
    pub offset_uploads: u64,
}

/// The blend mode of the first enabled effect whose mode has no
/// implemented formula, scanning from position `j`.
pub open spec fn spec_first_bad_blend(items: Seq<PostFxItem>, j: int) -> BlendType
    decreases items.len() - j,
    when 0 <= j <= items.len()
{
    if j >= items.len() {
        BlendType::ADDITIVE
    } else if items[j].spec_enabled() && !(items[j].spec_blend() is ADDITIVE) {
        items[j].spec_blend()
    } else {
        spec_first_bad_blend(items, j + 1)
    }
}

/// The compute-pass plan of the chain from effect `j` on, with `e` enabled
/// effects already passed: each enabled effect's own dispatches, then one
/// blend dispatch against chain pair member `e % 2`. `None` when an
/// enabled effect's blend mode has no implemented formula.
pub open spec fn spec_chain_plan(
    items: Seq<PostFxItem>,
    chain: FxState,
    j: int,
    e: int,
) -> Option<Seq<DispatchRecord>>
    decreases items.len() - j,
    when 0 <= j <= items.len()
{
    if j >= items.len() {
        Some(Seq::empty())
    } else if !items[j].spec_enabled() {
        spec_chain_plan(items, chain, j + 1, e)
    } else if items[j].spec_blend() is ADDITIVE {
        match spec_chain_plan(items, chain, j + 1, e + 1) {
            Some(rest) => Some(
                items[j].spec_compute_records() + seq![
                    DispatchRecord {
                        bind_group_nr: (e % 2) as usize,
                        count_x: chain.count_x,
                        count_y: chain.count_y,
                        count_z: 1,
                    },
                ] + rest,
            ),
            None => None,
        }
    } else {
        None
    }
}

impl PostProcessState {
    pub open spec fn wf(&self) -> bool {
        self.fx_state.wf()
    }

    /// A chain for a surface, with the default bloom appended.
    pub fn new(config: &SurfaceConfig) -> (r: PostProcessState)
        requires
            config.wf(),
        ensures
            r.uniform.offset == spec_fx_offset(*config),
            r.fx_state.tex_width == spec_fx_width(*config),
            r.fx_state.tex_height == spec_fx_height(*config),
            r.fx_state.wf(),
            r.post_fx@.len() == 1,
            r.post_fx@[0] matches PostFxItem::Bloom(b) && b.enabled && b.blend
                == BlendType::ADDITIVE && b.passes == 8,
            r.offset_uploads == 0,
    {
        let uniform = OffsetUniform::new(config);
        let w = config.width + 2 * (uniform.offset as u32);
        let h = config.height + 2 * (uniform.offset as u32);
        let fx_state = FxState::new(
            FxStateOptions { label: "Post process start".to_owned(), tex_width: w, tex_height: h },
        );
        let mut post_fx: Vec<PostFxItem> = Vec::new();
        post_fx.push(PostFxItem::Bloom(Bloom::new(config)));
        PostProcessState { fx_state, post_fx, uniform, offset_uploads: 0 }
    }

    /// Which member of the chain's pair holds the final accumulated image:
    /// decided only by how many effects are enabled.
    pub fn render_output(&self) -> (r: usize)
        ensures
            r == spec_count_enabled(self.post_fx@, self.post_fx@.len() as int) % 2,
    {
        let mut count: usize = 0;
        let mut i: usize = 0;
        while i < self.post_fx.len()
            invariant
                i <= self.post_fx@.len(),
                count == spec_count_enabled(self.post_fx@, i as int),
                count <= i,
            decreases self.post_fx@.len() - i,
        {
            if self.post_fx[i].enabled() {
                count = count + 1;
            }
            i = i + 1;
        }
        count % 2
    }

    /// Plans one blend of an effect's output into the chain's
    /// accumulation. Only the additive formula is implemented; any other
    /// mode is a hard error, never a silent substitute.
    pub fn blend(&self, input: FxChainOutput, output_nr: usize) -> (r: Result<
        DispatchRecord,
        UnsupportedOperationError,
    >)
        ensures
            input.blend is ADDITIVE ==> r == Ok::<DispatchRecord, UnsupportedOperationError>(
                DispatchRecord {
                    bind_group_nr: output_nr,
                    count_x: self.fx_state.count_x,
                    count_y: self.fx_state.count_y,
                    count_z: 1,
                },
            ),
            !(input.blend is ADDITIVE) ==> r == Err::<DispatchRecord, UnsupportedOperationError>(
                UnsupportedOperationError::UnsupportedBlendMode(input.blend),
            ),
    {
        match input.blend {
            BlendType::ADDITIVE => Ok(
                DispatchRecord {
                    bind_group_nr: output_nr,
                    count_x: self.fx_state.count_x,
                    count_y: self.fx_state.count_y,
                    count_z: 1,
                },
            ),
            BlendType::BLEND => Err(
                UnsupportedOperationError::UnsupportedBlendMode(BlendType::BLEND),
            ),
            BlendType::REPLACE => Err(
                UnsupportedOperationError::UnsupportedBlendMode(BlendType::REPLACE),
            ),
        }
    }

    /// Plans the chain's compute pass: the initialize step copying the
    /// rendered frame into the ping-pong space, then for each enabled
    /// effect in order its own dispatches and the blend of its output into
    /// the accumulation. Skipped (disabled) effects contribute nothing. An
    /// enabled effect with an unimplemented blend mode fails the whole
    /// pass.
    pub fn compute(&self) -> (r: Result<Vec<DispatchRecord>, UnsupportedOperationError>)
        ensures
            spec_chain_plan(self.post_fx@, self.fx_state, 0, 0) matches Some(plan) ==> (r matches Ok(
                v,
            ) && v@ == seq![
                DispatchRecord {
                    bind_group_nr: 1,
                    count_x: self.fx_state.count_x,
                    count_y: self.fx_state.count_y,
                    count_z: 1,
                },
            ] + plan),
            spec_chain_plan(self.post_fx@, self.fx_state, 0, 0) is None ==> r == Err::<
                Vec<DispatchRecord>,
                UnsupportedOperationError,
            >(
                UnsupportedOperationError::UnsupportedBlendMode(
                    spec_first_bad_blend(self.post_fx@, 0),
                ),
            ),
    {
        let ghost items = self.post_fx@;
        let mut out: Vec<DispatchRecord> = Vec::new();
        let init = DispatchRecord {
            bind_group_nr: 1,
            count_x: self.fx_state.count_x,
            count_y: self.fx_state.count_y,
            count_z: 1,
        };
        out.push(init);
        let mut j: usize = 0;
        let mut e: usize = 0;
        while j < self.post_fx.len()
            invariant
                j <= items.len(),
                items == self.post_fx@,
                e <= j,
                e == spec_count_enabled(items, j as int),
                out@.len() >= 1,
                out@[0] == (DispatchRecord {
                    bind_group_nr: 1,
                    count_x: self.fx_state.count_x,
                    count_y: self.fx_state.count_y,
                    count_z: 1,
                }),
                spec_chain_plan(items, self.fx_state, 0, 0) matches Some(plan) ==> {
                    &&& spec_chain_plan(items, self.fx_state, j as int, e as int) matches Some(
                        rest,
                    )
                    &&& out@ + rest == seq![
                        DispatchRecord {
                            bind_group_nr: 1,
                            count_x: self.fx_state.count_x,
                            count_y: self.fx_state.count_y,
                            count_z: 1,
                        },
                    ] + plan
                },
                spec_chain_plan(items, self.fx_state, 0, 0) is None ==> spec_chain_plan(
                    items,
                    self.fx_state,
                    j as int,
                    e as int,
                ) is None,
                spec_first_bad_blend(items, 0) == spec_first_bad_blend(items, j as int) || !(
                spec_chain_plan(items, self.fx_state, j as int, e as int) is None),
            decreases items.len() - j,
        {
            let item = &self.post_fx[j];
            if item.enabled() {
                match item.blend() {
                    BlendType::ADDITIVE => {
                        let mut own = item.compute();
                        let ghost pre = out@;
                        out.append(&mut own);
                        out.push(
                            DispatchRecord {
                                bind_group_nr: e % 2,
                                count_x: self.fx_state.count_x,
                                count_y: self.fx_state.count_y,
                                count_z: 1,
                            },
                        );
                        proof {
                            assert(out@ =~= pre + items[j as int].spec_compute_records() + seq![
                                DispatchRecord {
                                    bind_group_nr: ((e as int) % 2) as usize,
                                    count_x: self.fx_state.count_x,
                                    count_y: self.fx_state.count_y,
                                    count_z: 1,
                                },
                            ]);
                            if spec_chain_plan(items, self.fx_state, j as int, e as int) is Some {
                                let rest = spec_chain_plan(
                                    items,
                                    self.fx_state,
                                    j as int,
                                    e as int,
                                )->Some_0;
                                let next = spec_chain_plan(items, self.fx_state, j + 1, e + 1);
                                assert(next is Some);
                                assert(rest == items[j as int].spec_compute_records() + seq![
                                    DispatchRecord {
                                        bind_group_nr: ((e as int) % 2) as usize,
                                        count_x: self.fx_state.count_x,
                                        count_y: self.fx_state.count_y,
                                        count_z: 1,
                                    },
                                ] + next->Some_0);
                                assert(pre + rest =~= out@ + next->Some_0);
                            }
                        }
                        e = e + 1;
                    },
                    BlendType::BLEND => {
                        return Err(
                            UnsupportedOperationError::UnsupportedBlendMode(BlendType::BLEND),
                        );
                    },
                    BlendType::REPLACE => {
                        return Err(
                            UnsupportedOperationError::UnsupportedBlendMode(BlendType::REPLACE),
                        );
                    },
                }
            }
            j = j + 1;
        }
        proof {
            if spec_chain_plan(items, self.fx_state, 0, 0) matches Some(plan) {
                assert(spec_chain_plan(items, self.fx_state, items.len() as int, e as int)
                    == Some(Seq::<DispatchRecord>::empty()));
                assert(out@ + Seq::<DispatchRecord>::empty() =~= out@);
            }
        }
        Ok(out)
    }

    /// The chain after a resize: the margin uniform is recomputed and
    /// re-uploaded, the accumulation pair and every effect's targets are
    /// recreated at the new dimensions plus margin, and every parameter
    /// survives. Everything below is a pure function of the new surface
    /// and the surviving parameters, so resizing twice with the same
    /// surface changes nothing more.
    pub fn resize(&mut self, config: &SurfaceConfig)
        requires
            config.wf(),
            forall|i: int|
                0 <= i < old(self).post_fx@.len() ==> (#[trigger] old(self).post_fx@[i]).wf(),
        ensures
            final(self).uniform.offset == spec_fx_offset(*config),
            final(self).fx_state == old(self).fx_state.spec_resized(
                spec_fx_width(*config) as u32,
                spec_fx_height(*config) as u32,
            ),
            final(self).fx_state.wf(),
            final(self).post_fx@.len() == old(self).post_fx@.len(),
            forall|i: int|
                0 <= i < old(self).post_fx@.len() ==> final(self).post_fx@[i] == (
                #[trigger] old(self).post_fx@[i]).spec_resized(*config),
            final(self).offset_uploads == spec_saturating_inc(old(self).offset_uploads),
            is_resized_chain(*old(self), *final(self), *config),
    {
        self.uniform = OffsetUniform::new(config);
        self.offset_uploads = saturating_inc(self.offset_uploads);
        let w = config.width + 2 * (self.uniform.offset as u32);
        let h = config.height + 2 * (self.uniform.offset as u32);
        self.fx_state.resize(w, h);
        let ghost items0 = self.post_fx@;
        let ghost fixed_uniform = self.uniform;
        let ghost fixed_fx = self.fx_state;
        let ghost fixed_uploads = self.offset_uploads;
        let mut i: usize = 0;
        while i < self.post_fx.len()
            invariant
                i <= items0.len(),
                self.post_fx@.len() == items0.len(),
                self.uniform == fixed_uniform,
                self.fx_state == fixed_fx,
                self.offset_uploads == fixed_uploads,
                forall|k: int|
                    0 <= k < i ==> self.post_fx@[k] == (#[trigger] items0[k]).spec_resized(
                        *config,
                    ),
                forall|k: int| i <= k < items0.len() ==> self.post_fx@[k] == items0[k],
                forall|k: int| 0 <= k < items0.len() ==> (#[trigger] items0[k]).wf(),
                config.wf(),
            decreases items0.len() - i,
        {
            proof {
                assert(self.post_fx@[i as int] == items0[i as int]);
                assert(items0[i as int].wf());
            }
            let item: &mut PostFxItem = &mut self.post_fx[i];
            item.resize(config);
            i = i + 1;
        }
    }
}

/// Relation between the chain before and after one resize for a surface:
/// the margin is recomputed and re-uploaded, every owned target pair is
/// recreated at the new dimensions plus margin, every parameter survives.
pub open spec fn is_resized_chain(
    pre: PostProcessState,
    post: PostProcessState,
    c: SurfaceConfig,
) -> bool {
    &&& post.uniform.offset == spec_fx_offset(c)
    &&& post.fx_state == pre.fx_state.spec_resized(
        spec_fx_width(c) as u32,
        spec_fx_height(c) as u32,
    )
    &&& post.post_fx@.len() == pre.post_fx@.len()
    &&& forall|i: int|
        0 <= i < pre.post_fx@.len() ==> post.post_fx@[i] == (
        #[trigger] pre.post_fx@[i]).spec_resized(c)
    &&& post.offset_uploads == spec_saturating_inc(pre.offset_uploads)
}

/// Resizing the chain twice in a row for the same surface changes nothing
/// the second time: every output target dimension, dispatch count and
/// effect parameter value is exactly what the single resize produced.
pub proof fn lemma_chain_resize_idempotent(
    s0: PostProcessState,
    s1: PostProcessState,
    s2: PostProcessState,
    c: SurfaceConfig,
)
    requires
        is_resized_chain(s0, s1, c),
        is_resized_chain(s1, s2, c),
    ensures
        s2.uniform == s1.uniform,
        s2.fx_state == s1.fx_state,
        s2.post_fx@ == s1.post_fx@,
{
    lemma_fx_state_resize_idempotent(
        s0.fx_state,
        spec_fx_width(c) as u32,
        spec_fx_height(c) as u32,
    );
    assert forall|i: int| 0 <= i < s1.post_fx@.len() implies s2.post_fx@[i] == s1.post_fx@[i] by {
        assert(s1.post_fx@[i] == s0.post_fx@[i].spec_resized(c));
        lemma_post_fx_resize_idempotent(s0.post_fx@[i], c);
    }
    assert(s2.post_fx@ =~= s1.post_fx@);
}

/// Resizing is idempotent on a target pair: a second resize to the same
/// dimensions changes nothing.
pub proof fn lemma_fx_state_resize_idempotent(s: FxState, w: u32, h: u32)
    ensures
        s.spec_resized(w, h).spec_resized(w, h) == s.spec_resized(w, h),
{
}

/// Resizing is idempotent on every effect: a second resize for the same
/// surface leaves its target dimensions, dispatch counts and parameter
/// values unchanged.
pub proof fn lemma_post_fx_resize_idempotent(p: PostFxItem, config: SurfaceConfig)
    ensures
        p.spec_resized(config).spec_resized(config) == p.spec_resized(config),
{
}

} // verus!
