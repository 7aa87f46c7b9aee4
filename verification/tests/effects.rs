//! Post-process chain planning, resize semantics and the terrain cache.

use sparticles::fx::{
    BlendType, Bloom, BlurFx, BlurSettings, BlurType, BlurUniform, FxChainOutput, PostFxItem,
    PostProcessState, SurfaceConfig, UnsupportedOperationError,
};
use sparticles::assets::AssetCollection;
use sparticles::clock::Clock;
use sparticles::fx::BlurEvent;
use sparticles::state::SparState;
use sparticles::terrain::TerrainGenerator;

fn surface_800_600() -> SurfaceConfig {
    SurfaceConfig { width: 800, height: 600 }
}

fn default_blur(config: &SurfaceConfig) -> BlurFx {
    BlurFx::new(
        config,
        BlurSettings {
            blur_uniform: BlurUniform {
                brightness_threshold: 600_000,
                radius: 4,
                sigma: 1_300_000,
                intensity: 1_000_000,
            },
            blur_type: BlurType::Gaussian,
        },
    )
}

#[test]
fn chain_counts_cover_the_margin_extended_surface() {
    // 800x600 with a margin of max(800 / 60, 32) = 32 on each side gives
    // 864x664 targets, covered by ceil(864 / 8) x ceil(664 / 8) workgroups.
    let pp = PostProcessState::new(&surface_800_600());
    assert_eq!(pp.uniform.offset, 32);
    assert_eq!(pp.fx_state.tex_width, 864);
    assert_eq!(pp.fx_state.tex_height, 664);
    assert_eq!(pp.fx_state.count_x, 108);
    assert_eq!(pp.fx_state.count_y, 83);
}

#[test]
fn resize_recomputes_every_dispatch_count() {
    // Growing the surface from 800x600 to 1600x900 recomputes every count
    // as ceil(dimension / workgroup); nothing stale survives.
    let mut pp = PostProcessState::new(&surface_800_600());
    pp.resize(&SurfaceConfig { width: 1600, height: 900 });
    assert_eq!(pp.uniform.offset, 32);
    assert_eq!(pp.fx_state.tex_width, 1664);
    assert_eq!(pp.fx_state.tex_height, 964);
    assert_eq!(pp.fx_state.count_x, 208);
    assert_eq!(pp.fx_state.count_y, 121);
    match &pp.post_fx[0] {
        PostFxItem::Bloom(b) => {
            // The bloom's own pair shrinks by its kernel: ceil(1664 / 16)
            // by ceil(964 / 16), covered by its own counts.
            assert_eq!(b.fx_state.tex_width, 104);
            assert_eq!(b.fx_state.tex_height, 61);
            assert_eq!(b.fx_state.count_x, 13);
            assert_eq!(b.fx_state.count_y, 8);
        }
        _ => panic!("expected the default bloom"),
    }
}

#[test]
fn resize_with_same_dimensions_is_idempotent() {
    let config = surface_800_600();
    let mut once = PostProcessState::new(&config);
    once.resize(&config);
    let mut twice = PostProcessState::new(&config);
    twice.resize(&config);
    twice.resize(&config);
    assert_eq!(once.uniform, twice.uniform);
    assert_eq!(once.fx_state.tex_width, twice.fx_state.tex_width);
    assert_eq!(once.fx_state.tex_height, twice.fx_state.tex_height);
    assert_eq!(once.fx_state.count_x, twice.fx_state.count_x);
    assert_eq!(once.fx_state.count_y, twice.fx_state.count_y);
    match (&once.post_fx[0], &twice.post_fx[0]) {
        (PostFxItem::Bloom(a), PostFxItem::Bloom(b)) => {
            assert_eq!(a.uniform, b.uniform);
            assert_eq!(a.passes, b.passes);
            assert_eq!(a.fx_state.tex_width, b.fx_state.tex_width);
            assert_eq!(a.fx_state.tex_height, b.fx_state.tex_height);
            assert_eq!(a.fx_state.count_x, b.fx_state.count_x);
            assert_eq!(a.fx_state.count_y, b.fx_state.count_y);
        }
        _ => panic!("expected the default bloom"),
    }
}

#[test]
fn compute_skips_disabled_effects_entirely() {
    // A chain of [Bloom(enabled), Blur(disabled)]: the plan holds the
    // initialize step, the bloom's own dispatches, and one blend of the
    // bloom output — and nothing from the blur.
    let config = surface_800_600();
    let mut pp = PostProcessState::new(&config);
    let mut blur = default_blur(&config);
    blur.enabled = false;
    pp.post_fx.push(PostFxItem::Blur(blur));

    let plan = pp.compute().unwrap_or_else(|_| panic!("chain plan"));
    // init + (bloom: 1 split + 8 blur passes) + 1 blend = 11 dispatches.
    assert_eq!(plan.len(), 11);
    // Initialize copies the frame into the ping-pong space at chain counts.
    assert_eq!(plan[0].bind_group_nr, 1);
    assert_eq!(plan[0].count_x, 108);
    assert_eq!(plan[0].count_y, 83);
    // The bloom works at its own downscaled counts: ceil(864 / 16) = 54 by
    // ceil(664 / 16) = 42, covered by 7 x 6 workgroups.
    for rec in &plan[1..10] {
        assert_eq!(rec.count_x, 7);
        assert_eq!(rec.count_y, 6);
    }
    // The blend accumulates into chain pair member 0 at chain counts.
    assert_eq!(plan[10].bind_group_nr, 0);
    assert_eq!(plan[10].count_x, 108);
    assert_eq!(plan[10].count_y, 83);
}

#[test]
fn render_output_counts_enabled_effects() {
    let config = surface_800_600();
    let mut pp = PostProcessState::new(&config);
    assert_eq!(pp.render_output(), 1);
    let mut blur = default_blur(&config);
    blur.enabled = false;
    pp.post_fx.push(PostFxItem::Blur(blur));
    assert_eq!(pp.render_output(), 1);
    pp.post_fx.push(PostFxItem::Blur(default_blur(&config)));
    assert_eq!(pp.render_output(), 0);
}

#[test]
fn unimplemented_blend_modes_are_hard_errors() {
    let pp = PostProcessState::new(&surface_800_600());
    let ok = pp.blend(FxChainOutput { blend: BlendType::ADDITIVE, bind_group_nr: 0 }, 0);
    assert!(ok.is_ok());
    let r = pp.blend(FxChainOutput { blend: BlendType::BLEND, bind_group_nr: 0 }, 0);
    match r {
        Err(UnsupportedOperationError::UnsupportedBlendMode(m)) => {
            assert!(matches!(m, BlendType::BLEND));
        }
        _ => panic!("expected an unsupported blend mode error"),
    }
    let r2 = pp.blend(FxChainOutput { blend: BlendType::REPLACE, bind_group_nr: 0 }, 0);
    assert!(r2.is_err());
}

#[test]
fn chain_compute_fails_on_unimplemented_blend() {
    let config = surface_800_600();
    let mut pp = PostProcessState::new(&config);
    let mut blur = default_blur(&config);
    blur.blend = BlendType::REPLACE;
    pp.post_fx.push(PostFxItem::Blur(blur));
    match pp.compute() {
        Err(UnsupportedOperationError::UnsupportedBlendMode(m)) => {
            assert!(matches!(m, BlendType::REPLACE));
        }
        _ => panic!("expected an unsupported blend mode error"),
    }
}

#[test]
fn bloom_output_follows_its_pass_count() {
    let b = Bloom::new(&surface_800_600());
    assert_eq!(b.passes, 8);
    assert_eq!(b.output(), 0);
    assert!(b.enabled);
    assert!(matches!(b.blend, BlendType::ADDITIVE));
}

#[test]
fn blur_update_uploads_once_per_pending_edit() {
    let mut b = default_blur(&surface_800_600());
    assert_eq!(b.uploads, 0);
    b.update();
    assert_eq!(b.uploads, 0);
    b.update_uniform = Some(BlurEvent::UpdateUniform);
    b.update();
    assert_eq!(b.uploads, 1);
    assert!(b.update_uniform.is_none());
    b.update();
    assert_eq!(b.uploads, 1);
}

#[test]
fn terrain_ladder_doubles_up_to_the_cube_size() {
    let tg = TerrainGenerator::new();
    let sizes: Vec<u32> = tg.uniform_ctxs.iter().map(|c| c.uniform.tex_size).collect();
    assert_eq!(sizes, vec![128, 256, 512, 1024, 2048]);
    let counts: Vec<u32> = tg.uniform_ctxs.iter().map(|c| c.count_x).collect();
    assert_eq!(counts, vec![8, 16, 32, 64, 128]);
    assert_eq!(tg.environment_bg(), 1);
}

#[test]
fn terrain_computes_once_until_invalidated() {
    let mut tg = TerrainGenerator::new();
    let plan = tg.compute().unwrap_or_else(|| panic!("first terrain pass"));
    assert_eq!(plan.len(), 5);
    for (i, rec) in plan.iter().enumerate() {
        assert_eq!(rec.bind_group_nr, i % 2);
        assert_eq!(rec.count_z, 6);
    }
    // Cached: a later frame plans nothing.
    assert!(tg.compute().is_none());
    assert!(tg.compute().is_none());
    // Invalidation makes exactly one more run.
    tg.resize();
    assert!(tg.compute().is_some());
    assert!(tg.compute().is_none());
}

#[test]
fn state_resize_invalidates_the_terrain_cache() {
    let config = surface_800_600();
    let mut state = SparState {
        clock: Clock::new(),
        emitters: Vec::new(),
        post_process: PostProcessState::new(&config),
        terrain_generator: TerrainGenerator::new(),
        collection: AssetCollection::new(),
        surface: config,
        play: true,
    };
    state.terrain_generator.compute();
    assert!(state.terrain_generator.has_been_executed);
    let bigger = SurfaceConfig { width: 1600, height: 900 };
    state.resize(bigger);
    assert!(!state.terrain_generator.has_been_executed);
    assert_eq!(state.surface, bigger);
    assert_eq!(state.post_process.fx_state.count_x, 208);
}
