use volumetric_sky::binding::BoundResource;
use volumetric_sky::binding::build_bind_group;
use volumetric_sky::binding::build_post_bind_group;
use volumetric_sky::binding::build_shadow_bind_group;
use volumetric_sky::ops::Kernel;
use volumetric_sky::registry::StageFamily;
use volumetric_sky::registry::build_shadow_layout;
use volumetric_sky::registry::build_stage_layout;
use volumetric_sky::resources::TextureId;

#[test]
fn transmittance_bind_group_fills_unused_slot_with_placeholder() {
    let group = build_bind_group(Kernel::Transmittance);
    assert_eq!(
        group,
        vec![
            BoundResource::ParamsSnapshot,
            BoundResource::SampledTexture(TextureId::Placeholder),
            BoundResource::TextureSampler,
            BoundResource::SampledTexture(TextureId::MultipleScatteringLut),
            BoundResource::TextureSampler,
            BoundResource::SampledTexture(TextureId::CloudVolume),
            BoundResource::TextureSampler,
            BoundResource::Globals,
            BoundResource::StorageTarget(TextureId::TransmittanceLut),
        ]
    );
}

#[test]
fn bind_groups_have_one_entry_per_layout_slot() {
    for (kernel, family) in [
        (Kernel::Transmittance, StageFamily::Lut),
        (Kernel::MultipleScattering, StageFamily::Lut),
        (Kernel::SunTransmittance, StageFamily::Lut),
        (Kernel::SpecularRadiance, StageFamily::Radiance),
        (Kernel::DiffuseRadiance, StageFamily::Radiance),
    ] {
        let group = build_bind_group(kernel);
        let layout = build_stage_layout(family);
        assert_eq!(group.len(), layout.len(), "{:?}", kernel);
    }
    assert_eq!(build_post_bind_group().len(), build_stage_layout(StageFamily::PostProcess).len());
    assert_eq!(build_shadow_bind_group().len(), build_shadow_layout().len());
}

#[test]
fn diffuse_bind_group_samples_the_specular_atlas() {
    let specular = build_bind_group(Kernel::SpecularRadiance);
    let diffuse = build_bind_group(Kernel::DiffuseRadiance);
    assert_eq!(specular[7], BoundResource::SampledTexture(TextureId::Placeholder));
    assert_eq!(specular[9], BoundResource::StorageTarget(TextureId::SpecularAtlas));
    assert_eq!(diffuse[7], BoundResource::SampledTexture(TextureId::SpecularAtlas));
    assert_eq!(diffuse[9], BoundResource::StorageTarget(TextureId::DiffuseAtlas));
}

#[test]
fn multiple_scattering_writes_its_own_table() {
    let group = build_bind_group(Kernel::MultipleScattering);
    // the pass reads transmittance and writes multiple scattering, so its
    // own table's input slot holds the placeholder
    assert_eq!(group[1], BoundResource::SampledTexture(TextureId::TransmittanceLut));
    assert_eq!(group[3], BoundResource::SampledTexture(TextureId::Placeholder));
    assert_eq!(group[8], BoundResource::StorageTarget(TextureId::MultipleScatteringLut));
}

#[test]
fn post_bind_groups_match_contract() {
    let group = build_post_bind_group();
    assert_eq!(group.len(), 12);
    assert_eq!(group[0], BoundResource::ParamsSnapshot);
    assert_eq!(group[8], BoundResource::SceneColor);
    assert_eq!(group[9], BoundResource::SceneDepth);
    assert_eq!(group[11], BoundResource::PostSettings);
    assert_eq!(
        build_shadow_bind_group(),
        vec![BoundResource::ShadowDepth, BoundResource::ShadowSampler, BoundResource::LightData]
    );
}
