//! Bind groups: which resource fills each slot of a stage's fixed layout.
//!
//! A stage's layout is declared once and shared by all of its kernels; the
//! bind group built for one kernel must then match that layout slot by slot,
//! with the placeholder texture standing in unused texture slots.  The
//! conformance lemmas here prove the agreement once for every kernel: each
//! uniform sits in a uniform slot, each sampled texture is sampleable and of
//! the slot's dimensionality, and each storage target carries storage usage.

use vstd::prelude::*;
use crate::ops::Kernel;
use crate::ops::kernel_inputs;
use crate::ops::kernel_target;
use crate::ops::spec_kernel_inputs;
use crate::ops::spec_kernel_target;
use crate::registry::BindingKind;
use crate::registry::StageFamily;
use crate::registry::post_process_layout;
use crate::registry::shadow_layout;
use crate::registry::spec_stage_layout;
use crate::resources::TextureDimension;
use crate::resources::TextureId;
use crate::resources::spec_texture_desc;
use crate::stages::spec_kernel_family;

verus! {

/// One resource bound into one slot of a parameter set.
#[derive(Clone, Copy, Debug, PartialEq, Eq, Structural)]
pub enum BoundResource {
    /// The atmosphere parameter snapshot uniform.
    ParamsSnapshot,
    /// A sampled texture input.
    SampledTexture(TextureId),
    /// The filtering sampler paired with the preceding texture.
    TextureSampler,
    /// The renderer's per-frame globals uniform.
    Globals,
    /// The kernel's write-only storage output.
    StorageTarget(TextureId),
    /// The renderer's per-view uniform.
    ViewData,
    /// The view's color buffer.
    SceneColor,
    /// The view's depth buffer.
    SceneDepth,
    /// The post-process settings uniform.
    PostSettings,
    /// The directional-light shadow depth array.
    ShadowDepth,
    /// The comparison sampler for shadow lookups.
    ShadowSampler,
    /// The renderer's directional-light uniform.
    LightData,
}

/// Whether a bound resource is legal in a slot of the given kind.
pub open spec fn binding_matches_slot(b: BoundResource, s: BindingKind) -> bool {
    match b {
        BoundResource::ParamsSnapshot => s == BindingKind::ParamsUniform,
        BoundResource::SampledTexture(t) => {
            &&& spec_texture_desc(t).texture_binding
            &&& (s == BindingKind::Texture2d || s == BindingKind::Texture3d)
            &&& (s == BindingKind::Texture2d <==> spec_texture_desc(t).dimension
                == TextureDimension::D2)
        },
        BoundResource::TextureSampler => s == BindingKind::FilteringSampler,
        BoundResource::Globals => s == BindingKind::GlobalsUniform,
        BoundResource::StorageTarget(t) => s == BindingKind::StorageTexture && spec_texture_desc(
            t,
        ).storage_binding,
        BoundResource::ViewData => s == BindingKind::ViewUniform,
        BoundResource::SceneColor => s == BindingKind::ColorTexture,
        BoundResource::SceneDepth => s == BindingKind::DepthTexture,
        BoundResource::PostSettings => s == BindingKind::SettingsUniform,
        BoundResource::ShadowDepth => s == BindingKind::ShadowDepthArray,
        BoundResource::ShadowSampler => s == BindingKind::ComparisonSampler,
        BoundResource::LightData => s == BindingKind::LightUniform,
    }
}

/// A bind group conforms to a layout when it fills every slot, in order,
/// with a resource the slot accepts.
pub open spec fn conforms(group: Seq<BoundResource>, layout: Seq<BindingKind>) -> bool {
    &&& group.len() == layout.len()
    &&& forall|i: int|
        0 <= i < group.len() ==> binding_matches_slot(#[trigger] group[i], layout[i])
}

/// The bind group of a compute kernel: the parameter snapshot, the sampled
/// inputs each paired with the shared sampler, the globals uniform, and the
/// kernel's storage target.
pub open spec fn spec_bind_group(k: Kernel) -> Seq<BoundResource> {
    let ins = spec_kernel_inputs(k);
    if spec_kernel_family(k) == StageFamily::Lut {
        seq![
            BoundResource::ParamsSnapshot,
            BoundResource::SampledTexture(ins[0]),
            BoundResource::TextureSampler,
            BoundResource::SampledTexture(ins[1]),
            BoundResource::TextureSampler,
            BoundResource::SampledTexture(ins[2]),
            BoundResource::TextureSampler,
            BoundResource::Globals,
            BoundResource::StorageTarget(spec_kernel_target(k)),
        ]
    } else {
        seq![
            BoundResource::ParamsSnapshot,
            BoundResource::SampledTexture(ins[0]),
            BoundResource::TextureSampler,
            BoundResource::SampledTexture(ins[1]),
            BoundResource::TextureSampler,
            BoundResource::SampledTexture(ins[2]),
            BoundResource::TextureSampler,
            BoundResource::SampledTexture(ins[3]),
            BoundResource::Globals,
            BoundResource::StorageTarget(spec_kernel_target(k)),
        ]
    }
}

/// The primary bind group of the aerial-perspective draw.
pub open spec fn spec_post_bind_group() -> Seq<BoundResource> {
    seq![
        BoundResource::ParamsSnapshot,
        BoundResource::SampledTexture(TextureId::TransmittanceLut),
        BoundResource::TextureSampler,
        BoundResource::SampledTexture(TextureId::MultipleScatteringLut),
        BoundResource::TextureSampler,
        BoundResource::SampledTexture(TextureId::CloudVolume),
        BoundResource::TextureSampler,
        BoundResource::ViewData,
        BoundResource::SceneColor,
        BoundResource::SceneDepth,
        BoundResource::TextureSampler,
        BoundResource::PostSettings,
    ]
}

/// The secondary shadow bind group of the aerial-perspective draw.
pub open spec fn spec_shadow_bind_group() -> Seq<BoundResource> {
    seq![BoundResource::ShadowDepth, BoundResource::ShadowSampler, BoundResource::LightData]
}

/// Every compute kernel's bind group conforms to its stage's declared
/// layout.
pub proof fn lemma_bind_groups_conform(k: Kernel)
    ensures
        conforms(spec_bind_group(k), spec_stage_layout(spec_kernel_family(k))),
{
    let group = spec_bind_group(k);
    let layout = spec_stage_layout(spec_kernel_family(k));
    assert forall|i: int| 0 <= i < group.len() implies binding_matches_slot(
        #[trigger] group[i],
        layout[i],
    ) by {
        match k {
            Kernel::Transmittance => {},
            Kernel::MultipleScattering => {},
            Kernel::SunTransmittance => {},
            Kernel::SpecularRadiance => {},
            Kernel::DiffuseRadiance => {},
        }
    }
}

/// Both bind groups of the aerial-perspective draw conform to its declared
/// layouts.
pub proof fn lemma_post_bind_groups_conform()
    ensures
        conforms(spec_post_bind_group(), post_process_layout()),
        conforms(spec_shadow_bind_group(), shadow_layout()),
{
    assert forall|i: int| 0 <= i < spec_post_bind_group().len() implies binding_matches_slot(
        #[trigger] spec_post_bind_group()[i],
        post_process_layout()[i],
    ) by {}
    assert forall|i: int| 0 <= i < spec_shadow_bind_group().len() implies binding_matches_slot(
        #[trigger] spec_shadow_bind_group()[i],
        shadow_layout()[i],
    ) by {}
}

/// Builds the bind group a compute kernel is dispatched with.
pub fn build_bind_group(k: Kernel) -> (group: Vec<BoundResource>)
    ensures
        group@ == spec_bind_group(k),
{
    let ins = kernel_inputs(k);
    let mut group: Vec<BoundResource> = Vec::new();
    group.push(BoundResource::ParamsSnapshot);
    group.push(BoundResource::SampledTexture(ins[0]));
    group.push(BoundResource::TextureSampler);
    group.push(BoundResource::SampledTexture(ins[1]));
    group.push(BoundResource::TextureSampler);
    group.push(BoundResource::SampledTexture(ins[2]));
    group.push(BoundResource::TextureSampler);
    if ins.len() == 4 {
        group.push(BoundResource::SampledTexture(ins[3]));
    }
    group.push(BoundResource::Globals);
    group.push(BoundResource::StorageTarget(kernel_target(k)));
    proof {
        assert(group@ =~= spec_bind_group(k));
    }
    group
}

/// Builds the primary bind group of the aerial-perspective draw.
pub fn build_post_bind_group() -> (group: Vec<BoundResource>)
    ensures
        group@ == spec_post_bind_group(),
{
    let mut group: Vec<BoundResource> = Vec::new();
    group.push(BoundResource::ParamsSnapshot);
    group.push(BoundResource::SampledTexture(TextureId::TransmittanceLut));
    group.push(BoundResource::TextureSampler);
    group.push(BoundResource::SampledTexture(TextureId::MultipleScatteringLut));
    group.push(BoundResource::TextureSampler);
    group.push(BoundResource::SampledTexture(TextureId::CloudVolume));
    group.push(BoundResource::TextureSampler);
    group.push(BoundResource::ViewData);
    group.push(BoundResource::SceneColor);
    group.push(BoundResource::SceneDepth);
    group.push(BoundResource::TextureSampler);
    group.push(BoundResource::PostSettings);
    proof {
        assert(group@ =~= spec_post_bind_group());
    }
    group
}

/// Builds the secondary shadow bind group of the aerial-perspective draw.
pub fn build_shadow_bind_group() -> (group: Vec<BoundResource>)
    ensures
        group@ == spec_shadow_bind_group(),
{
    let mut group: Vec<BoundResource> = Vec::new();
    group.push(BoundResource::ShadowDepth);
    group.push(BoundResource::ShadowSampler);
    group.push(BoundResource::LightData);
    proof {
        assert(group@ =~= spec_shadow_bind_group());
    }
    group
}

} // verus!
