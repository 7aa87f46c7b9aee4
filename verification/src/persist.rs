//! Tagged export/import of animation and effect configuration.
//!
//! Every configurable instance exports a tag naming its kind plus its
//! serializable parameter record, and can be reconstructed from exactly
//! that pair. Re-importing an exported configuration reproduces the
//! parameters bit for bit; a tag nobody registered, or data shaped for
//! another kind, fails the import — it is reported, never defaulted
//! silently, and a failed emitter load keeps nothing half-restored.

use crate::animation::{
    EmitterAnimation, GravityAnimation, GravityUniform, ParticleAnimation,
    RegisterGravityAnimation, RegisterStrayAnimation, RegisterSwayAnimation, StrayAnimation,
    StrayUniform, SwayAnimation, SwayUniform,
};
use crate::assets::AssetCollection;
use crate::emitter::{
    spec_dispatch_x, CreateEmitterOptions, EmitterState, EmitterType, EmitterUniform,
    PARTICLE_RECORD_BYTES,
};
use crate::errors::{ConstructionError, DeserializationError, ImportError};
use crate::fx::{
    spec_bloom_dim, spec_fx_height, spec_fx_width, Bloom, BloomSettings, BlurFx, BlurSettings,
    PostFxItem, SurfaceConfig,
};
use crate::list_action::{HandleAction, ListAction};
use vstd::prelude::*;
use vstd::string::StringExecFns;

verus! {

/// The serializable parameter record of one instance, by kind.
#[derive(Clone, Copy, Debug, PartialEq, Eq, Structural)]
pub enum AnimationData {
    Gravity(GravityUniform),
    Stray(StrayUniform),
    Sway(SwayUniform),
    Blur(BlurSettings),
    Bloom(BloomSettings),
}

/// One exported instance: the tag naming its kind and its parameters.
#[derive(Debug)]
pub struct DynamicExport {
    pub tag: String,
    pub data: AnimationData,
}

/// Compares a tag against a literal.
fn tag_is(tag: &String, lit: &str) -> (r: bool)
    ensures
        r == (tag@ == lit@),
{
    let owned: String = lit.to_owned();
    tag.eq(&owned)
}

impl ParticleAnimation {
    /// The tag this instance exports under.
    pub open spec fn spec_export_tag(&self) -> Seq<char> {
        match *self {
            ParticleAnimation::Gravity(_) => "gravity"@,
            ParticleAnimation::Stray(_) => "stray"@,
        }
    }

    /// The parameters this instance exports.
    pub open spec fn spec_export_data(&self) -> AnimationData {
        match *self {
            ParticleAnimation::Gravity(g) => AnimationData::Gravity(g.uniform),
            ParticleAnimation::Stray(s) => AnimationData::Stray(s.uniform),
        }
    }

    /// Exports this instance's kind tag and parameters.
    pub fn export(&self) -> (r: DynamicExport)
        ensures
            r.tag@ == self.spec_export_tag(),
            r.data == self.spec_export_data(),
    {
        match self {
            ParticleAnimation::Gravity(g) => DynamicExport {
                tag: RegisterGravityAnimation.tag().to_owned(),
                data: AnimationData::Gravity(g.uniform),
            },
            ParticleAnimation::Stray(s) => DynamicExport {
                tag: RegisterStrayAnimation.tag().to_owned(),
                data: AnimationData::Stray(s.uniform),
            },
        }
    }
}

impl EmitterAnimation {
    /// The tag this instance exports under.
    pub open spec fn spec_export_tag(&self) -> Seq<char> {
        match *self {
            EmitterAnimation::Sway(_) => "sway"@,
        }
    }

    /// The parameters this instance exports.
    pub open spec fn spec_export_data(&self) -> AnimationData {
        match *self {
            EmitterAnimation::Sway(s) => AnimationData::Sway(s.uniform),
        }
    }

    /// Exports this instance's kind tag and parameters.
    pub fn export(&self) -> (r: DynamicExport)
        ensures
            r.tag@ == self.spec_export_tag(),
            r.data == self.spec_export_data(),
    {
        match self {
            EmitterAnimation::Sway(s) => DynamicExport {
                tag: RegisterSwayAnimation.tag().to_owned(),
                data: AnimationData::Sway(s.uniform),
            },
        }
    }
}

impl PostFxItem {
    /// The tag this effect exports under.
    pub open spec fn spec_export_tag(&self) -> Seq<char> {
        match *self {
            PostFxItem::Bloom(_) => "bloom"@,
            PostFxItem::Blur(_) => "blur"@,
        }
    }

    /// The parameters this effect exports.
    pub open spec fn spec_export_data(&self) -> AnimationData {
        match *self {
            PostFxItem::Bloom(b) => AnimationData::Bloom(
                BloomSettings { bloom_uniform: b.uniform, passes: b.passes },
            ),
            PostFxItem::Blur(b) => AnimationData::Blur(
                BlurSettings { blur_uniform: b.blur_uniform, blur_type: b.blur_type },
            ),
        }
    }

    /// Exports this effect's kind tag and parameters.
    pub fn export(&self) -> (r: DynamicExport)
        ensures
            r.tag@ == self.spec_export_tag(),
            r.data == self.spec_export_data(),
    {
        match self {
            PostFxItem::Bloom(b) => DynamicExport {
                tag: "bloom".to_owned(),
                data: AnimationData::Bloom(b.export()),
            },
            PostFxItem::Blur(b) => DynamicExport {
                tag: "blur".to_owned(),
                data: AnimationData::Blur(b.export()),
            },
        }
    }
}

/// Whether a tag names a registered particle-animation kind.
pub open spec fn spec_known_particle_tag(tag: Seq<char>) -> bool {
    tag == "gravity"@ || tag == "stray"@
}

/// The particle animation a tagged record reconstructs: a fresh instance
/// carrying exactly the saved parameters — or nothing, when the tag is
/// unregistered or the data is shaped for another kind.
pub open spec fn spec_import_particle(tag: Seq<char>, data: AnimationData) -> Option<
    ParticleAnimation,
> {
    if tag == "gravity"@ {
        match data {
            AnimationData::Gravity(u) => Some(
                ParticleAnimation::Gravity(
                    GravityAnimation {
                        uniform: u,
                        selected_action: ListAction::Idle,
                        enabled: true,
                        uploads: 0,
                    },
                ),
            ),
            _ => None,
        }
    } else if tag == "stray"@ {
        match data {
            AnimationData::Stray(u) => Some(
                ParticleAnimation::Stray(
                    StrayAnimation {
                        uniform: u,
                        update_uniform: false,
                        selected_action: ListAction::Idle,
                        enabled: true,
                        uploads: 0,
                    },
                ),
            ),
            _ => None,
        }
    } else {
        None
    }
}

/// Reconstructs a particle animation from an exported record.
pub fn import_particle_animation(de: &DynamicExport) -> (r: Result<
    ParticleAnimation,
    DeserializationError,
>)
    ensures
        spec_import_particle(de.tag@, de.data) matches Some(a) ==> r == Ok::<
            ParticleAnimation,
            DeserializationError,
        >(a),
        (spec_known_particle_tag(de.tag@) && spec_import_particle(de.tag@, de.data) is None) ==> (
        r matches Err(DeserializationError::SchemaMismatch { tag }) && tag@ == de.tag@),
        !spec_known_particle_tag(de.tag@) ==> (r matches Err(
            DeserializationError::UnknownTag { tag },
        ) && tag@ == de.tag@),
{
    if tag_is(&de.tag, "gravity") {
        match de.data {
            AnimationData::Gravity(u) => Ok(ParticleAnimation::Gravity(GravityAnimation::new(u))),
            _ => Err(DeserializationError::SchemaMismatch { tag: de.tag.clone() }),
        }
    } else if tag_is(&de.tag, "stray") {
        match de.data {
            AnimationData::Stray(u) => Ok(ParticleAnimation::Stray(StrayAnimation::new(u))),
            _ => Err(DeserializationError::SchemaMismatch { tag: de.tag.clone() }),
        }
    } else {
        Err(DeserializationError::UnknownTag { tag: de.tag.clone() })
    }
}

/// Whether a tag names a registered emitter-animation kind.
pub open spec fn spec_known_emitter_tag(tag: Seq<char>) -> bool {
    tag == "sway"@
}

/// The emitter animation a tagged record reconstructs.
pub open spec fn spec_import_emitter_anim(tag: Seq<char>, data: AnimationData) -> Option<
    EmitterAnimation,
> {
    if tag == "sway"@ {
        match data {
            AnimationData::Sway(u) => Some(
                EmitterAnimation::Sway(
                    SwayAnimation { uniform: u, selected_action: ListAction::Idle, enabled: true },
                ),
            ),
            _ => None,
        }
    } else {
        None
    }
}

/// Reconstructs an emitter animation from an exported record.
pub fn import_emitter_animation(de: &DynamicExport) -> (r: Result<
    EmitterAnimation,
    DeserializationError,
>)
    ensures
        spec_import_emitter_anim(de.tag@, de.data) matches Some(a) ==> r == Ok::<
            EmitterAnimation,
            DeserializationError,
        >(a),
        (spec_known_emitter_tag(de.tag@) && spec_import_emitter_anim(de.tag@, de.data) is None)
            ==> (r matches Err(DeserializationError::SchemaMismatch { tag }) && tag@ == de.tag@),
        !spec_known_emitter_tag(de.tag@) ==> (r matches Err(
            DeserializationError::UnknownTag { tag },
        ) && tag@ == de.tag@),
{
    if tag_is(&de.tag, "sway") {
        match de.data {
            AnimationData::Sway(u) => Ok(EmitterAnimation::Sway(SwayAnimation::new(u))),
            _ => Err(DeserializationError::SchemaMismatch { tag: de.tag.clone() }),
        }
    } else {
        Err(DeserializationError::UnknownTag { tag: de.tag.clone() })
    }
}

/// Whether a tag names a registered post-effect kind.
pub open spec fn spec_known_fx_tag(tag: Seq<char>) -> bool {
    tag == "bloom"@ || tag == "blur"@
}

/// The settings a tagged effect record reconstructs: the saved parameters
/// themselves, when tag and shape agree.
pub open spec fn spec_import_fx_settings(tag: Seq<char>, data: AnimationData) -> Option<
    AnimationData,
> {
    if tag == "bloom"@ {
        match data {
            AnimationData::Bloom(_) => Some(data),
            _ => None,
        }
    } else if tag == "blur"@ {
        match data {
            AnimationData::Blur(_) => Some(data),
            _ => None,
        }
    } else {
        None
    }
}

/// Reconstructs a post-effect from an exported record, its targets sized
/// for the given surface. The reconstructed effect exports exactly the
/// saved parameters again.
pub fn import_post_fx(config: &SurfaceConfig, de: &DynamicExport) -> (r: Result<
    PostFxItem,
    DeserializationError,
>)
    requires
        config.wf(),
        de.data matches AnimationData::Bloom(s) ==> s.bloom_uniform.wf(),
    ensures
        spec_import_fx_settings(de.tag@, de.data) is Some ==> (r matches Ok(item)
            && item.spec_export_tag() == de.tag@ && item.spec_export_data() == de.data
            && item.spec_enabled() && item.wf()),
        (spec_known_fx_tag(de.tag@) && spec_import_fx_settings(de.tag@, de.data) is None) ==> (
        r matches Err(DeserializationError::SchemaMismatch { tag }) && tag@ == de.tag@),
        !spec_known_fx_tag(de.tag@) ==> (r matches Err(DeserializationError::UnknownTag { tag })
            && tag@ == de.tag@),
{
    if tag_is(&de.tag, "bloom") {
        match de.data {
            AnimationData::Bloom(s) => Ok(PostFxItem::Bloom(Bloom::from_settings(config, s))),
            _ => Err(DeserializationError::SchemaMismatch { tag: de.tag.clone() }),
        }
    } else if tag_is(&de.tag, "blur") {
        match de.data {
            AnimationData::Blur(s) => Ok(PostFxItem::Blur(BlurFx::new(config, s))),
            _ => Err(DeserializationError::SchemaMismatch { tag: de.tag.clone() }),
        }
    } else {
        Err(DeserializationError::UnknownTag { tag: de.tag.clone() })
    }
}

/// Re-importing an exported particle animation reconstructs an instance
/// whose tag and every serializable parameter are bit for bit those of the
/// original.
pub proof fn lemma_particle_roundtrip(a: ParticleAnimation)
    ensures
        spec_import_particle(a.spec_export_tag(), a.spec_export_data()) matches Some(b)
            && b.spec_export_tag() == a.spec_export_tag() && b.spec_export_data()
            == a.spec_export_data(),
{
    reveal_strlit("gravity");
    reveal_strlit("stray");
    assert("gravity"@.len() == 7 && "stray"@.len() == 5);
    assert("gravity"@ != "stray"@);
}

/// Re-importing an exported emitter animation reconstructs an instance
/// whose tag and every serializable parameter are bit for bit those of the
/// original.
pub proof fn lemma_emitter_anim_roundtrip(a: EmitterAnimation)
    ensures
        spec_import_emitter_anim(a.spec_export_tag(), a.spec_export_data()) matches Some(b)
            && b.spec_export_tag() == a.spec_export_tag() && b.spec_export_data()
            == a.spec_export_data(),
{
}

/// Re-importing an exported effect reconstructs exactly the exported
/// settings: the tagged record round-trips bit for bit.
pub proof fn lemma_post_fx_roundtrip(p: PostFxItem)
    ensures
        spec_import_fx_settings(p.spec_export_tag(), p.spec_export_data()) == Some(
            p.spec_export_data(),
        ),
{
    reveal_strlit("bloom");
    reveal_strlit("blur");
    assert("bloom"@.len() == 5 && "blur"@.len() == 4);
    assert("bloom"@ != "blur"@);
}

/// One exported emitter: its parameter record, its rendering role, and the
/// tagged exports of all its animations.
#[derive(Debug)]
pub struct ExportEmitter {
    pub emitter: EmitterUniform,
    pub is_light: bool,
    pub particle_animations: Vec<DynamicExport>,
    pub emitter_animations: Vec<DynamicExport>,
}

impl EmitterState {
    /// Exports every emitter's configuration, in registration order.
    pub fn export(emitters: &Vec<EmitterState>) -> (r: Vec<ExportEmitter>)
        ensures
            r@.len() == emitters@.len(),
            forall|i: int|
                0 <= i < emitters@.len() ==> {
                    let ex = #[trigger] r@[i];
                    let em = emitters@[i];
                    &&& ex.emitter == em.uniform
                    &&& ex.is_light == em.is_light
                    &&& ex.particle_animations@.len() == em.particle_animations@.len()
                    &&& forall|j: int|
                        0 <= j < em.particle_animations@.len() ==> {
                            let a = #[trigger] em.particle_animations@[j];
                            ex.particle_animations@[j].tag@ == a.spec_export_tag()
                                && ex.particle_animations@[j].data == a.spec_export_data()
                        }
                    &&& ex.emitter_animations@.len() == em.emitter_animations@.len()
                    &&& forall|j: int|
                        0 <= j < em.emitter_animations@.len() ==> {
                            let a = #[trigger] em.emitter_animations@[j];
                            ex.emitter_animations@[j].tag@ == a.spec_export_tag()
                                && ex.emitter_animations@[j].data == a.spec_export_data()
                        }
                },
    {
        let mut out: Vec<ExportEmitter> = Vec::new();
        let mut i: usize = 0;
        while i < emitters.len()
            invariant
                i <= emitters@.len(),
                out@.len() == i,
                forall|k: int|
                    0 <= k < i ==> {
                        let ex = #[trigger] out@[k];
                        let em = emitters@[k];
                        &&& ex.emitter == em.uniform
                        &&& ex.is_light == em.is_light
                        &&& ex.particle_animations@.len() == em.particle_animations@.len()
                        &&& forall|j: int|
                            0 <= j < em.particle_animations@.len() ==> {
                                let a = #[trigger] em.particle_animations@[j];
                                ex.particle_animations@[j].tag@ == a.spec_export_tag()
                                    && ex.particle_animations@[j].data == a.spec_export_data()
                            }
                        &&& ex.emitter_animations@.len() == em.emitter_animations@.len()
                        &&& forall|j: int|
                            0 <= j < em.emitter_animations@.len() ==> {
                                let a = #[trigger] em.emitter_animations@[j];
                                ex.emitter_animations@[j].tag@ == a.spec_export_tag()
                                    && ex.emitter_animations@[j].data == a.spec_export_data()
                            }
                    },
            decreases emitters@.len() - i,
        {
            let em = &emitters[i];
            let mut panims: Vec<DynamicExport> = Vec::new();
            let mut j: usize = 0;
            while j < em.particle_animations.len()
                invariant
                    j <= em.particle_animations@.len(),
                    panims@.len() == j,
                    forall|q: int|
                        0 <= q < j ==> {
                            let a = #[trigger] em.particle_animations@[q];
                            panims@[q].tag@ == a.spec_export_tag() && panims@[q].data
                                == a.spec_export_data()
                        },
                decreases em.particle_animations@.len() - j,
            {
                panims.push(em.particle_animations[j].export());
                j = j + 1;
            }
            let mut eanims: Vec<DynamicExport> = Vec::new();
            let mut j2: usize = 0;
            while j2 < em.emitter_animations.len()
                invariant
                    j2 <= em.emitter_animations@.len(),
                    eanims@.len() == j2,
                    forall|q: int|
                        0 <= q < j2 ==> {
                            let a = #[trigger] em.emitter_animations@[q];
                            eanims@[q].tag@ == a.spec_export_tag() && eanims@[q].data
                                == a.spec_export_data()
                        },
                decreases em.emitter_animations@.len() - j2,
            {
                eanims.push(em.emitter_animations[j2].export());
                j2 = j2 + 1;
            }
            out.push(
                ExportEmitter {
                    emitter: em.uniform.duplicate(),
                    is_light: em.is_light,
                    particle_animations: panims,
                    emitter_animations: eanims,
                },
            );
            i = i + 1;
        }
        out
    }

    /// Restores one emitter from its exported configuration: the emitter
    /// is rebuilt for its saved parameters and every saved animation is
    /// re-imported in order. The first failure — a missing asset or an
    /// animation that does not match its schema — aborts the whole
    /// restore: the emitter is not produced at all, never with animations
    /// silently skipped.
    pub fn import_emitter(de: &ExportEmitter, collection: &AssetCollection) -> (r: Result<
        EmitterState,
        ImportError,
    >)
        requires
            de.emitter.wf(),
        ensures
            r is Ok <==> (collection.spec_contains(de.emitter.mesh.collection_id@)
                && collection.spec_contains(de.emitter.material.collection_id@) && (forall|j: int|
                0 <= j < de.particle_animations@.len() ==> spec_import_particle(
                    (#[trigger] de.particle_animations@[j]).tag@,
                    de.particle_animations@[j].data,
                ) is Some) && (forall|j: int|
                0 <= j < de.emitter_animations@.len() ==> spec_import_emitter_anim(
                    (#[trigger] de.emitter_animations@[j]).tag@,
                    de.emitter_animations@[j].data,
                ) is Some)),
            r matches Ok(em) ==> {
                &&& em.uniform == de.emitter
                &&& em.is_light == de.is_light
                &&& em.dispatch_x_count == spec_dispatch_x(de.emitter.particle_count)
                &&& em.particle_buffers@.len() == 2
                &&& forall|b: int|
                    0 <= b < 2 ==> (#[trigger] em.particle_buffers@[b])@.len()
                        == de.emitter.particle_count * PARTICLE_RECORD_BYTES
                &&& em.particle_animations@.len() == de.particle_animations@.len()
                &&& forall|j: int|
                    0 <= j < de.particle_animations@.len() ==> em.particle_animations@[j]
                        == spec_import_particle(
                        (#[trigger] de.particle_animations@[j]).tag@,
                        de.particle_animations@[j].data,
                    )->Some_0
                &&& em.emitter_animations@.len() == de.emitter_animations@.len()
                &&& forall|j: int|
                    0 <= j < de.emitter_animations@.len() ==> em.emitter_animations@[j]
                        == spec_import_emitter_anim(
                        (#[trigger] de.emitter_animations@[j]).tag@,
                        de.emitter_animations@[j].data,
                    )->Some_0
                &&& em.uniform_uploads == 0
            },
            (!collection.spec_contains(de.emitter.mesh.collection_id@) || !collection.spec_contains(
                de.emitter.material.collection_id@,
            )) ==> r matches Err(ImportError::Construction(_)),
            (collection.spec_contains(de.emitter.mesh.collection_id@)
                && collection.spec_contains(de.emitter.material.collection_id@) && r is Err) ==> (
            r matches Err(ImportError::Deserialization(_))),
    {
        let uniform = de.emitter.duplicate();
        let emitter_type = if de.is_light {
            EmitterType::Lights
        } else {
            EmitterType::Normal
        };
        let mut em = match EmitterState::new(
            CreateEmitterOptions { uniform, collection, emitter_type },
        ) {
            Ok(em) => em,
            Err(ce) => {
                return Err(ImportError::Construction(ce));
            },
        };
        let mut j: usize = 0;
        while j < de.particle_animations.len()
            invariant
                j <= de.particle_animations@.len(),
                em.particle_animations@.len() == j,
                forall|q: int|
                    0 <= q < j ==> spec_import_particle(
                        (#[trigger] de.particle_animations@[q]).tag@,
                        de.particle_animations@[q].data,
                    ) is Some,
                forall|q: int|
                    0 <= q < j ==> em.particle_animations@[q] == spec_import_particle(
                        (#[trigger] de.particle_animations@[q]).tag@,
                        de.particle_animations@[q].data,
                    )->Some_0,
                collection.spec_contains(de.emitter.mesh.collection_id@),
                collection.spec_contains(de.emitter.material.collection_id@),
                em.uniform == de.emitter,
                em.is_light == de.is_light,
                em.dispatch_x_count == spec_dispatch_x(de.emitter.particle_count),
                em.particle_buffers@.len() == 2,
                forall|b: int|
                    0 <= b < 2 ==> (#[trigger] em.particle_buffers@[b])@.len()
                        == de.emitter.particle_count * PARTICLE_RECORD_BYTES,
                em.emitter_animations@.len() == 0,
                em.uniform_uploads == 0,
            decreases de.particle_animations@.len() - j,
        {
            match import_particle_animation(&de.particle_animations[j]) {
                Ok(a) => {
                    em.push_particle_animation(a);
                },
                Err(e2) => {
                    return Err(ImportError::Deserialization(e2));
                },
            }
            j = j + 1;
        }
        let mut j2: usize = 0;
        while j2 < de.emitter_animations.len()
            invariant
                j2 <= de.emitter_animations@.len(),
                em.emitter_animations@.len() == j2,
                forall|q: int|
                    0 <= q < j2 ==> spec_import_emitter_anim(
                        (#[trigger] de.emitter_animations@[q]).tag@,
                        de.emitter_animations@[q].data,
                    ) is Some,
                forall|q: int|
                    0 <= q < j2 ==> em.emitter_animations@[q] == spec_import_emitter_anim(
                        (#[trigger] de.emitter_animations@[q]).tag@,
                        de.emitter_animations@[q].data,
                    )->Some_0,
                collection.spec_contains(de.emitter.mesh.collection_id@),
                collection.spec_contains(de.emitter.material.collection_id@),
                em.uniform == de.emitter,
                em.is_light == de.is_light,
                em.dispatch_x_count == spec_dispatch_x(de.emitter.particle_count),
                em.particle_buffers@.len() == 2,
                forall|b: int|
                    0 <= b < 2 ==> (#[trigger] em.particle_buffers@[b])@.len()
                        == de.emitter.particle_count * PARTICLE_RECORD_BYTES,
                em.particle_animations@.len() == de.particle_animations@.len(),
                forall|q: int|
                    0 <= q < de.particle_animations@.len() ==> em.particle_animations@[q]
                        == spec_import_particle(
                        (#[trigger] de.particle_animations@[q]).tag@,
                        de.particle_animations@[q].data,
                    )->Some_0,
                forall|q: int|
                    0 <= q < de.particle_animations@.len() ==> spec_import_particle(
                        (#[trigger] de.particle_animations@[q]).tag@,
                        de.particle_animations@[q].data,
                    ) is Some,
                em.uniform_uploads == 0,
            decreases de.emitter_animations@.len() - j2,
        {
            match import_emitter_animation(&de.emitter_animations[j2]) {
                Ok(a) => {
                    em.push_emitter_animation(a);
                },
                Err(e2) => {
                    return Err(ImportError::Deserialization(e2));
                },
            }
            j2 = j2 + 1;
        }
        Ok(em)
    }
}

} // verus!
