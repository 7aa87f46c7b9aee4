//! Emitter construction, simulation planning, structural rebuilds and the
//! per-frame orchestration.

use sparticles::animation::{
    GravityAnimation, GravityUniform, GravityUniformOptions, ParticleAnimation,
    RegisterGravityAnimation, RegisterStrayAnimation, StrayUniform,
};
use sparticles::assets::AssetCollection;
use sparticles::clock::Clock;
use sparticles::emitter::{
    CreateEmitterOptions, EmitterState, EmitterType, EmitterUniform, BUILTIN_ID,
    PARTICLE_RECORD_BYTES,
};
use sparticles::errors::ConstructionError;
use sparticles::fx::{PostProcessState, SurfaceConfig};
use sparticles::lifecycle::LifeCycle;
use sparticles::math::Vec3i;
use sparticles::state::{SparEvents, SparState};
use sparticles::terrain::TerrainGenerator;

fn builtin_collection() -> AssetCollection {
    let mut c = AssetCollection::new();
    c.insert(String::from(BUILTIN_ID));
    c
}

fn new_emitter(id: &str, collection: &AssetCollection, t: EmitterType) -> EmitterState {
    EmitterState::new(CreateEmitterOptions {
        uniform: EmitterUniform::new(String::from(id)),
        collection,
        emitter_type: t,
    })
    .unwrap_or_else(|_| panic!("emitter construction"))
}

fn test_state() -> SparState {
    let collection = builtin_collection();
    let surface = SurfaceConfig { width: 800, height: 600 };
    let lights = new_emitter("lights", &collection, EmitterType::Lights);
    SparState {
        clock: Clock::new(),
        emitters: vec![lights],
        post_process: PostProcessState::new(&surface),
        terrain_generator: TerrainGenerator::new(),
        collection,
        surface,
        play: true,
    }
}

#[test]
fn construction_fails_on_unknown_asset_key() {
    let collection = AssetCollection::new();
    let r = EmitterState::new(CreateEmitterOptions {
        uniform: EmitterUniform::new(String::from("e1")),
        collection: &collection,
        emitter_type: EmitterType::Normal,
    });
    match r {
        Err(ConstructionError::UnknownAssetKey { key }) => assert_eq!(key, BUILTIN_ID),
        _ => panic!("expected a construction error"),
    }
}

#[test]
fn construction_zero_initializes_both_buffers() {
    let collection = builtin_collection();
    let em = new_emitter("e1", &collection, EmitterType::Normal);
    assert_eq!(em.particle_buffers.len(), 2);
    let size = (em.uniform.particle_count * PARTICLE_RECORD_BYTES) as usize;
    for b in em.particle_buffers.iter() {
        assert_eq!(b.len(), size);
        assert!(b.iter().all(|&x| x == 0));
    }
    // 1024 particles over 128-wide workgroups.
    assert_eq!(em.dispatch_x_count, 8);
    assert!(!em.is_light);
}

#[test]
fn compute_plan_follows_registration_order_and_parity() {
    let collection = builtin_collection();
    let mut clock = Clock::new();
    clock.update(1_000_000, true);
    let mut em = new_emitter("e1", &collection, EmitterType::Lights);
    RegisterStrayAnimation::append(StrayUniform::default(), &mut em);
    let emitters = vec![em];
    let plan = EmitterState::compute_particles(&emitters, &clock);
    // One simulation dispatch, then the enabled stray animation.
    assert_eq!(plan.len(), 2);
    assert_eq!(plan[0].bind_group_nr, 1);
    assert_eq!(plan[0].count_x, 8);
    assert_eq!(plan[1].bind_group_nr, 1);
    assert_eq!(plan[1].count_x, 8);
}

#[test]
fn inactive_gravity_contributes_no_dispatch() {
    let collection = builtin_collection();
    let clock = Clock::new();
    let mut em = new_emitter("e1", &collection, EmitterType::Lights);
    RegisterGravityAnimation::append(GravityUniform::default(), &mut em);
    // Never updated: should_animate is false, so only the simulation runs.
    let emitters = vec![em];
    let plan = EmitterState::compute_particles(&emitters, &clock);
    assert_eq!(plan.len(), 1);
}

#[test]
fn disabled_animation_is_skipped() {
    let collection = builtin_collection();
    let clock = Clock::new();
    let mut em = new_emitter("e1", &collection, EmitterType::Lights);
    RegisterStrayAnimation::append(StrayUniform::default(), &mut em);
    match &mut em.particle_animations[0] {
        ParticleAnimation::Stray(s) => s.enabled = false,
        _ => panic!("expected the stray animation"),
    }
    let emitters = vec![em];
    let plan = EmitterState::compute_particles(&emitters, &clock);
    assert_eq!(plan.len(), 1);
}

#[test]
fn render_plan_uses_stable_parity_and_light_binding() {
    let collection = builtin_collection();
    let mut clock = Clock::new();
    clock.update(1_000_000, true);
    let lights = new_emitter("lights", &collection, EmitterType::Lights);
    let normal = new_emitter("sparks", &collection, EmitterType::Normal);
    let emitters = vec![lights, normal];
    let plan = EmitterState::render_particles(&emitters, &clock);
    assert_eq!(plan.len(), 2);
    // Frame 1: the simulation wrote buffer 0 this frame, so both draws
    // sample orientation 0.
    assert_eq!(plan[0].bind_group_nr, 0);
    assert!(!plan[0].binds_light_buffer);
    assert!(plan[1].binds_light_buffer);
    assert_eq!(plan[0].instance_count, 1024);
}

#[test]
fn recreate_copies_overlap_and_zeroes_the_rest() {
    let collection = builtin_collection();
    let mut uniform = EmitterUniform::new(String::from("grow"));
    uniform.particle_count = 500;
    let mut em = EmitterState::new(CreateEmitterOptions {
        uniform,
        collection: &collection,
        emitter_type: EmitterType::Normal,
    })
    .unwrap_or_else(|_| panic!("emitter construction"));
    // Scribble a recognizable pattern into both old buffers.
    for b in 0..2usize {
        let n = em.particle_buffers[b].len();
        for j in 0..n {
            em.particle_buffers[b][j] = ((j + b) % 251) as u8;
        }
    }
    em.uniform.particle_count = 2000;
    let old_bytes = (500 * PARTICLE_RECORD_BYTES) as usize;
    let new_bytes = (2000 * PARTICLE_RECORD_BYTES) as usize;
    let new_em = EmitterState::recreate_emitter(em, &collection, EmitterType::Normal);
    assert_eq!(new_em.uniform.particle_count, 2000);
    assert_eq!(new_em.dispatch_x_count, 16);
    for b in 0..2usize {
        assert_eq!(new_em.particle_buffers[b].len(), new_bytes);
        for j in 0..old_bytes {
            assert_eq!(new_em.particle_buffers[b][j], ((j + b) % 251) as u8);
        }
        for j in old_bytes..new_bytes {
            assert_eq!(new_em.particle_buffers[b][j], 0);
        }
    }
}

#[test]
fn recreate_transplants_animations() {
    let collection = builtin_collection();
    let mut em = new_emitter("e1", &collection, EmitterType::Normal);
    let mut g = GravityUniform::default();
    g.mass = 77;
    RegisterGravityAnimation::append(g, &mut em);
    match &mut em.particle_animations[0] {
        ParticleAnimation::Gravity(ga) => ga.uploads = 5,
        _ => panic!("expected the gravity animation"),
    }
    let new_em = EmitterState::recreate_emitter(em, &collection, EmitterType::Normal);
    assert_eq!(new_em.particle_animations.len(), 1);
    match &new_em.particle_animations[0] {
        ParticleAnimation::Gravity(ga) => {
            // The parameter values carried over; the per-emitter state is
            // fresh.
            assert_eq!(ga.uniform.mass, 77);
            assert_eq!(ga.uploads, 0);
            assert!(ga.enabled);
        }
        _ => panic!("expected the gravity animation"),
    }
}

#[test]
fn nonlooping_animation_stops_uploading_past_its_window() {
    // An emitter with 1024 particles and a non-looping gravity animation:
    // after the clock passes the window's end, the animation reports
    // inactive and no further parameter uploads happen.
    let mut state = test_state();
    let uniform = GravityUniform::new(GravityUniformOptions {
        gravitational_force: 10_000,
        dead_zone: 4_000_000,
        mass: 1_000_000,
        life_cycle: LifeCycle { from_ms: 0, until_ms: 1_000, lifetime_ms: 0 },
        start_pos: Vec3i::new(0, 0, 0),
        end_pos: Vec3i::new(1_000_000, 0, 0),
    });
    RegisterGravityAnimation::append(uniform, &mut state.emitters[0]);
    assert_eq!(state.emitters[0].uniform.particle_count, 1024);
    let events = SparEvents::default();

    state.clock.update(500_000_000, true);
    EmitterState::update(&mut state, &events).unwrap_or_else(|_| panic!("frame update"));
    let uploads_while_active = match &state.emitters[0].particle_animations[0] {
        ParticleAnimation::Gravity(g) => {
            assert!(g.uniform.should_animate);
            g.uploads
        }
        _ => panic!("expected the gravity animation"),
    };
    assert_eq!(uploads_while_active, 1);

    state.clock.update(2_000_000_000, true);
    EmitterState::update(&mut state, &events).unwrap_or_else(|_| panic!("frame update"));
    state.clock.update(3_000_000_000, true);
    EmitterState::update(&mut state, &events).unwrap_or_else(|_| panic!("frame update"));
    match &state.emitters[0].particle_animations[0] {
        ParticleAnimation::Gravity(g) => {
            assert!(!g.uniform.should_animate);
            assert_eq!(g.uploads, uploads_while_active);
        }
        _ => panic!("expected the gravity animation"),
    }
}

#[test]
fn gravity_position_interpolates_while_active() {
    let mut state = test_state();
    let uniform = GravityUniform::new(GravityUniformOptions {
        gravitational_force: 10_000,
        dead_zone: 4_000_000,
        mass: 1_000_000,
        life_cycle: LifeCycle { from_ms: 0, until_ms: 2_000, lifetime_ms: 0 },
        start_pos: Vec3i::new(0, 0, 0),
        end_pos: Vec3i::new(1_000_000, 2_000_000, 0),
    });
    RegisterGravityAnimation::append(uniform, &mut state.emitters[0]);
    let events = SparEvents::default();
    state.clock.update(1_000_000_000, true);
    EmitterState::update(&mut state, &events).unwrap_or_else(|_| panic!("frame update"));
    match &state.emitters[0].particle_animations[0] {
        ParticleAnimation::Gravity(g) => {
            // Halfway through the window.
            assert_eq!(g.uniform.current_pos, Vec3i::new(500_000, 1_000_000, 0));
        }
        _ => panic!("expected the gravity animation"),
    }
}

#[test]
fn frame_update_uploads_the_emitter_record() {
    let mut state = test_state();
    let events = SparEvents::default();
    state.clock.update(16_000_000, true);
    EmitterState::update(&mut state, &events).unwrap_or_else(|_| panic!("frame update"));
    assert_eq!(state.emitters[0].uniform_uploads, 1);
    assert_eq!(state.emitters[0].uniform.elapsed_ms, 16);
    EmitterState::update(&mut state, &events).unwrap_or_else(|_| panic!("frame update"));
    assert_eq!(state.emitters[0].uniform_uploads, 2);
}

#[test]
fn create_event_appends_a_default_emitter() {
    let mut state = test_state();
    let events = SparEvents { delete_emitter: None, create_emitter: Some(String::from("burst")) };
    EmitterState::update(&mut state, &events).unwrap_or_else(|_| panic!("frame update"));
    assert_eq!(state.emitters.len(), 2);
    assert_eq!(state.emitters[1].id(), "burst");
    assert!(!state.emitters[1].is_light);
    assert_eq!(state.emitters[1].uniform_uploads, 1);
}

#[test]
fn failed_create_leaves_the_collection_untouched() {
    let mut state = test_state();
    state.collection = AssetCollection::new();
    let events = SparEvents { delete_emitter: None, create_emitter: Some(String::from("burst")) };
    let r = EmitterState::update(&mut state, &events);
    match r {
        Err(ConstructionError::UnknownAssetKey { key }) => assert_eq!(key, BUILTIN_ID),
        _ => panic!("expected a construction error"),
    }
    // Nothing half-built was inserted, and no emitter was updated.
    assert_eq!(state.emitters.len(), 1);
    assert_eq!(state.emitters[0].uniform_uploads, 0);
}

#[test]
fn delete_event_removes_by_id() {
    let mut state = test_state();
    let sparks = new_emitter("sparks", &state.collection, EmitterType::Normal);
    state.emitters.push(sparks);
    let events = SparEvents { delete_emitter: Some(String::from("sparks")), create_emitter: None };
    EmitterState::update(&mut state, &events).unwrap_or_else(|_| panic!("frame update"));
    assert_eq!(state.emitters.len(), 1);
    assert_eq!(state.emitters[0].id(), "lights");
}

#[test]
fn emitter_buffer_content_lists_spawn_parameters() {
    let u = EmitterUniform::new(String::from("e1"));
    let words = u.create_buffer_content();
    assert_eq!(words.len(), 19);
    assert_eq!(words[0], 1024);
    assert_eq!(words[1], u.spawn_count as i64);
}

#[test]
fn upload_bytes_expand_every_word() {
    let u = EmitterUniform::new(String::from("e1"));
    assert_eq!(u.create_buffer_bytes().len(), 152);
    let g = GravityUniform::default();
    assert_eq!(g.create_buffer_bytes().len(), 48);
    let s = StrayUniform::default();
    assert_eq!(s.create_buffer_bytes().len(), 32);
    // The word values survive the reinterpretation: the mass word of the
    // default gravity uniform reassembles from its eight bytes.
    let bytes = g.create_buffer_bytes();
    let mut mass: i64 = 0;
    for k in 0..8 {
        mass |= (bytes[16 + k] as i64) << (8 * k);
    }
    if mass != g.mass {
        // A big-endian device stores the words reversed.
        let mut be: i64 = 0;
        for k in 0..8 {
            be = (be << 8) | (bytes[16 + k] as i64);
        }
        assert_eq!(be, g.mass);
    }
}
