use volumetric_sky::registry::BindingKind;
use volumetric_sky::registry::PipelineRegistry;
use volumetric_sky::registry::StageFamily;
use volumetric_sky::registry::build_shadow_layout;
use volumetric_sky::registry::build_stage_layout;
use volumetric_sky::registry::kernel_count;

#[test]
fn kernel_counts_per_family() {
    assert_eq!(kernel_count(StageFamily::Lut), 3);
    assert_eq!(kernel_count(StageFamily::Radiance), 2);
    assert_eq!(kernel_count(StageFamily::PostProcess), 1);
}

#[test]
fn registry_starts_loading() {
    let reg = PipelineRegistry::new(StageFamily::Lut);
    assert!(!reg.state_is_ready());
}

#[test]
fn registry_waits_for_every_kernel() {
    let mut reg = PipelineRegistry::new(StageFamily::Lut);
    reg.poll(&vec![true, false, true]);
    assert!(!reg.state_is_ready());
    reg.poll(&vec![false, false, false]);
    assert!(!reg.state_is_ready());
    reg.poll(&vec![true, true, true]);
    assert!(reg.state_is_ready());
}

#[test]
fn ready_is_never_left() {
    let mut reg = PipelineRegistry::new(StageFamily::Radiance);
    reg.poll(&vec![true, true]);
    assert!(reg.state_is_ready());
    // a later report can never demote the stage
    reg.poll(&vec![false, false]);
    assert!(reg.state_is_ready());
}

#[test]
fn lut_layout_has_nine_bindings() {
    let l = build_stage_layout(StageFamily::Lut);
    assert_eq!(l.len(), 9);
    assert_eq!(l[0], BindingKind::ParamsUniform);
    assert_eq!(l[1], BindingKind::Texture2d);
    assert_eq!(l[2], BindingKind::FilteringSampler);
    assert_eq!(l[5], BindingKind::Texture3d);
    assert_eq!(l[7], BindingKind::GlobalsUniform);
    assert_eq!(l[8], BindingKind::StorageTexture);
}

#[test]
fn radiance_layout_adds_specular_input() {
    let lut = build_stage_layout(StageFamily::Lut);
    let rad = build_stage_layout(StageFamily::Radiance);
    assert_eq!(rad.len(), 10);
    // the first seven slots are the shared table bindings
    assert_eq!(&rad[0..7], &lut[0..7]);
    assert_eq!(rad[7], BindingKind::Texture2d);
    assert_eq!(rad[8], BindingKind::GlobalsUniform);
    assert_eq!(rad[9], BindingKind::StorageTexture);
}

#[test]
fn post_process_layouts_match_contract() {
    let post = build_stage_layout(StageFamily::PostProcess);
    assert_eq!(post.len(), 12);
    assert_eq!(post[7], BindingKind::ViewUniform);
    assert_eq!(post[8], BindingKind::ColorTexture);
    assert_eq!(post[9], BindingKind::DepthTexture);
    assert_eq!(post[11], BindingKind::SettingsUniform);

    let shadow = build_shadow_layout();
    assert_eq!(shadow.len(), 3);
    assert_eq!(shadow[0], BindingKind::ShadowDepthArray);
    assert_eq!(shadow[1], BindingKind::ComparisonSampler);
    assert_eq!(shadow[2], BindingKind::LightUniform);
}
