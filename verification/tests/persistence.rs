//! Tagged export/import round trips and their failure modes.

use sparticles::animation::{
    EmitterAnimation, GravityAnimation, GravityUniform, ParticleAnimation, StrayAnimation,
    StrayUniform, SwayAnimation, SwayUniform,
};
use sparticles::assets::AssetCollection;
use sparticles::emitter::{
    CreateEmitterOptions, EmitterState, EmitterType, EmitterUniform, BUILTIN_ID,
};
use sparticles::errors::{DeserializationError, ImportError};
use sparticles::fx::{Bloom, BlurFx, BlurSettings, BlurType, BlurUniform, PostFxItem, SurfaceConfig};
use sparticles::lifecycle::LifeCycle;
use sparticles::math::Vec3i;
use sparticles::persist::{
    import_emitter_animation, import_particle_animation, import_post_fx, AnimationData,
    DynamicExport,
};

fn builtin_collection() -> AssetCollection {
    let mut c = AssetCollection::new();
    c.insert(String::from(BUILTIN_ID));
    c
}

#[test]
fn gravity_roundtrips_bit_for_bit() {
    let mut u = GravityUniform::default();
    u.mass = 123_456_789;
    u.start_pos = Vec3i::new(-7, 8, -9);
    let original = ParticleAnimation::Gravity(GravityAnimation::new(u));
    let exported = original.export();
    assert_eq!(exported.tag, "gravity");
    let imported = import_particle_animation(&exported).unwrap_or_else(|_| panic!("import"));
    match (original, imported) {
        (ParticleAnimation::Gravity(a), ParticleAnimation::Gravity(b)) => {
            assert_eq!(a.uniform, b.uniform);
        }
        _ => panic!("kind changed through the round trip"),
    }
}

#[test]
fn stray_roundtrips_bit_for_bit() {
    let u = StrayUniform { stray_radians: 44_444, from_ms: 250, until_ms: 4_000 };
    let original = ParticleAnimation::Stray(StrayAnimation::new(u));
    let exported = original.export();
    assert_eq!(exported.tag, "stray");
    let imported = import_particle_animation(&exported).unwrap_or_else(|_| panic!("import"));
    match imported {
        ParticleAnimation::Stray(b) => assert_eq!(b.uniform, u),
        _ => panic!("kind changed through the round trip"),
    }
}

#[test]
fn sway_roundtrips_bit_for_bit() {
    let mut u = SwayUniform::default();
    u.life_cycle = LifeCycle { from_ms: 10, until_ms: 20, lifetime_ms: 40 };
    let original = EmitterAnimation::Sway(SwayAnimation::new(u));
    let exported = original.export();
    assert_eq!(exported.tag, "sway");
    let imported = import_emitter_animation(&exported).unwrap_or_else(|_| panic!("import"));
    match imported {
        EmitterAnimation::Sway(b) => assert_eq!(b.uniform, u),
    }
}

#[test]
fn bloom_roundtrips_bit_for_bit() {
    let config = SurfaceConfig { width: 800, height: 600 };
    let mut bloom = Bloom::new(&config);
    bloom.uniform.kernel_size = 8;
    bloom.passes = 4;
    let original = PostFxItem::Bloom(bloom);
    let exported = original.export();
    assert_eq!(exported.tag, "bloom");
    let imported = import_post_fx(&config, &exported).unwrap_or_else(|_| panic!("import"));
    match (&original, &imported) {
        (PostFxItem::Bloom(a), PostFxItem::Bloom(b)) => {
            assert_eq!(a.uniform, b.uniform);
            assert_eq!(a.passes, b.passes);
        }
        _ => panic!("kind changed through the round trip"),
    }
}

#[test]
fn blur_roundtrips_bit_for_bit() {
    let config = SurfaceConfig { width: 800, height: 600 };
    let settings = BlurSettings {
        blur_uniform: BlurUniform {
            brightness_threshold: 123,
            radius: 9,
            sigma: 456,
            intensity: 789,
        },
        blur_type: BlurType::Box,
    };
    let original = PostFxItem::Blur(BlurFx::new(&config, settings));
    let exported = original.export();
    assert_eq!(exported.tag, "blur");
    let imported = import_post_fx(&config, &exported).unwrap_or_else(|_| panic!("import"));
    match imported {
        PostFxItem::Blur(b) => {
            assert_eq!(b.blur_uniform, settings.blur_uniform);
            assert_eq!(b.blur_type, settings.blur_type);
        }
        _ => panic!("kind changed through the round trip"),
    }
}

#[test]
fn unknown_tag_is_reported() {
    let de = DynamicExport {
        tag: String::from("vortex"),
        data: AnimationData::Gravity(GravityUniform::default()),
    };
    match import_particle_animation(&de) {
        Err(DeserializationError::UnknownTag { tag }) => assert_eq!(tag, "vortex"),
        _ => panic!("expected an unknown tag error"),
    }
}

#[test]
fn mismatched_schema_is_reported() {
    let de = DynamicExport {
        tag: String::from("gravity"),
        data: AnimationData::Stray(StrayUniform::default()),
    };
    match import_particle_animation(&de) {
        Err(DeserializationError::SchemaMismatch { tag }) => assert_eq!(tag, "gravity"),
        _ => panic!("expected a schema mismatch error"),
    }
}

#[test]
fn fx_import_rejects_foreign_data() {
    let config = SurfaceConfig { width: 800, height: 600 };
    let de = DynamicExport {
        tag: String::from("bloom"),
        data: AnimationData::Gravity(GravityUniform::default()),
    };
    match import_post_fx(&config, &de) {
        Err(DeserializationError::SchemaMismatch { tag }) => assert_eq!(tag, "bloom"),
        _ => panic!("expected a schema mismatch error"),
    }
}

#[test]
fn emitter_configuration_roundtrips() {
    let collection = builtin_collection();
    let mut em = EmitterState::new(CreateEmitterOptions {
        uniform: EmitterUniform::new(String::from("saved")),
        collection: &collection,
        emitter_type: EmitterType::Lights,
    })
    .unwrap_or_else(|_| panic!("emitter construction"));
    let mut g = GravityUniform::default();
    g.dead_zone = 55;
    em.push_particle_animation(ParticleAnimation::Gravity(GravityAnimation::new(g)));
    em.push_emitter_animation(EmitterAnimation::Sway(SwayAnimation::new(SwayUniform::default())));

    let emitters = vec![em];
    let exported = EmitterState::export(&emitters);
    assert_eq!(exported.len(), 1);
    assert!(exported[0].is_light);
    assert_eq!(exported[0].particle_animations.len(), 1);
    assert_eq!(exported[0].emitter_animations.len(), 1);

    let restored = EmitterState::import_emitter(&exported[0], &collection)
        .unwrap_or_else(|_| panic!("emitter import"));
    assert_eq!(restored.id(), "saved");
    assert!(restored.is_light);
    match &restored.particle_animations[0] {
        ParticleAnimation::Gravity(rg) => assert_eq!(rg.uniform.dead_zone, 55),
        _ => panic!("expected the gravity animation"),
    }
    match &restored.emitter_animations[0] {
        EmitterAnimation::Sway(rs) => assert_eq!(rs.uniform, SwayUniform::default()),
    }
}

#[test]
fn emitter_import_aborts_on_bad_animation() {
    let collection = builtin_collection();
    let em = EmitterState::new(CreateEmitterOptions {
        uniform: EmitterUniform::new(String::from("saved")),
        collection: &collection,
        emitter_type: EmitterType::Normal,
    })
    .unwrap_or_else(|_| panic!("emitter construction"));
    let emitters = vec![em];
    let mut exported = EmitterState::export(&emitters);
    exported[0].particle_animations.push(DynamicExport {
        tag: String::from("vortex"),
        data: AnimationData::Gravity(GravityUniform::default()),
    });
    match EmitterState::import_emitter(&exported[0], &collection) {
        Err(ImportError::Deserialization(DeserializationError::UnknownTag { tag })) => {
            assert_eq!(tag, "vortex");
        }
        _ => panic!("expected the import to abort on the bad animation"),
    }
}

#[test]
fn emitter_import_fails_without_assets() {
    let collection = builtin_collection();
    let em = EmitterState::new(CreateEmitterOptions {
        uniform: EmitterUniform::new(String::from("saved")),
        collection: &collection,
        emitter_type: EmitterType::Normal,
    })
    .unwrap_or_else(|_| panic!("emitter construction"));
    let emitters = vec![em];
    let exported = EmitterState::export(&emitters);
    let empty = AssetCollection::new();
    match EmitterState::import_emitter(&exported[0], &empty) {
        Err(ImportError::Construction(_)) => {}
        _ => panic!("expected a construction failure"),
    }
}
