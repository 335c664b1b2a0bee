//! Per-stage pipeline registries: fixed binding layouts, kernel submission,
//! and the compile state machine.
//!
//! Each stage family declares one parameter-set layout shared by all of its
//! kernels, submits the kernels for asynchronous compilation, and is polled
//! once per frame.  A stage starts `Loading` and becomes `Ready` only once
//! the compiler reports success for every kernel the stage needs; the
//! transition is irreversible.

use vstd::prelude::*;

verus! {

/// The three stage families, each with its own registry.
#[derive(Clone, Copy, Debug, PartialEq, Eq, Structural)]
pub enum StageFamily {
    Lut,
    Radiance,
    PostProcess,
}

/// Compile state of a stage's kernels, polled once per frame.
#[derive(Clone, Copy, Debug, PartialEq, Eq, Structural)]
pub enum StageState {
    Loading,
    Ready,
}

/// How many kernels each stage family submits for compilation.
pub open spec fn spec_kernel_count(f: StageFamily) -> nat {
    match f {
        StageFamily::Lut => 3,
        StageFamily::Radiance => 2,
        StageFamily::PostProcess => 1,
    }
}

/// How many kernels a stage family waits on.
pub fn kernel_count(f: StageFamily) -> (n: usize)
    ensures
        n == spec_kernel_count(f),
{
    match f {
        StageFamily::Lut => 3,
        StageFamily::Radiance => 2,
        StageFamily::PostProcess => 1,
    }
}

/// One slot of a parameter-set layout.
#[derive(Clone, Copy, Debug, PartialEq, Eq, Structural)]
pub enum BindingKind {
    /// The atmosphere parameter uniform block.
    ParamsUniform,
    /// A sampled two-dimensional texture input.
    Texture2d,
    /// A sampled three-dimensional texture input.
    Texture3d,
    /// A filtering sampler paired with a texture input.
    FilteringSampler,
    /// The renderer's per-frame globals uniform.
    GlobalsUniform,
    /// The pass's write-only storage output texture.
    StorageTexture,
    /// The renderer's per-view uniform (camera transform and projection).
    ViewUniform,
    /// The view's color buffer.
    ColorTexture,
    /// The view's depth buffer.
    DepthTexture,
    /// The post-process settings uniform.
    SettingsUniform,
    /// The directional-light shadow depth array.
    ShadowDepthArray,
    /// A comparison sampler for shadow lookups.
    ComparisonSampler,
    /// The renderer's directional-light uniform.
    LightUniform,
}

/// The nine-binding layout shared by the three table kernels: parameters,
/// three texture-and-sampler input pairs, globals, and the storage output.
pub open spec fn lut_layout() -> Seq<BindingKind> {
    seq![
        BindingKind::ParamsUniform,
        BindingKind::Texture2d,
        BindingKind::FilteringSampler,
        BindingKind::Texture2d,
        BindingKind::FilteringSampler,
        BindingKind::Texture3d,
        BindingKind::FilteringSampler,
        BindingKind::GlobalsUniform,
        BindingKind::StorageTexture,
    ]
}

/// The ten-binding layout of the radiance kernels: the table layout plus the
/// specular-atlas input the diffuse pass convolves.
pub open spec fn radiance_layout() -> Seq<BindingKind> {
    seq![
        BindingKind::ParamsUniform,
        BindingKind::Texture2d,
        BindingKind::FilteringSampler,
        BindingKind::Texture2d,
        BindingKind::FilteringSampler,
        BindingKind::Texture3d,
        BindingKind::FilteringSampler,
        BindingKind::Texture2d,
        BindingKind::GlobalsUniform,
        BindingKind::StorageTexture,
    ]
}

/// The twelve-binding primary layout of the aerial-perspective fragment
/// kernel.
pub open spec fn post_process_layout() -> Seq<BindingKind> {
    seq![
        BindingKind::ParamsUniform,
        BindingKind::Texture2d,
        BindingKind::FilteringSampler,
        BindingKind::Texture2d,
        BindingKind::FilteringSampler,
        BindingKind::Texture3d,
        BindingKind::FilteringSampler,
        BindingKind::ViewUniform,
        BindingKind::ColorTexture,
        BindingKind::DepthTexture,
        BindingKind::FilteringSampler,
        BindingKind::SettingsUniform,
    ]
}

/// The secondary three-binding shadow set of the aerial-perspective kernel.
pub open spec fn shadow_layout() -> Seq<BindingKind> {
    seq![BindingKind::ShadowDepthArray, BindingKind::ComparisonSampler, BindingKind::LightUniform]
}

/// The primary layout a stage family declares, identical for every kernel of
/// the family.
pub open spec fn spec_stage_layout(f: StageFamily) -> Seq<BindingKind> {
    match f {
        StageFamily::Lut => lut_layout(),
        StageFamily::Radiance => radiance_layout(),
        StageFamily::PostProcess => post_process_layout(),
    }
}

/// Builds a stage family's primary layout.
pub fn build_stage_layout(f: StageFamily) -> (l: Vec<BindingKind>)
    ensures
        l@ == spec_stage_layout(f),
{
    let mut l: Vec<BindingKind> = Vec::new();
    l.push(BindingKind::ParamsUniform);
    l.push(BindingKind::Texture2d);
    l.push(BindingKind::FilteringSampler);
    l.push(BindingKind::Texture2d);
    l.push(BindingKind::FilteringSampler);
    l.push(BindingKind::Texture3d);
    l.push(BindingKind::FilteringSampler);
    match f {
        StageFamily::Lut => {
            l.push(BindingKind::GlobalsUniform);
            l.push(BindingKind::StorageTexture);
        },
        StageFamily::Radiance => {
            l.push(BindingKind::Texture2d);
            l.push(BindingKind::GlobalsUniform);
            l.push(BindingKind::StorageTexture);
        },
        StageFamily::PostProcess => {
            l.push(BindingKind::ViewUniform);
            l.push(BindingKind::ColorTexture);
            l.push(BindingKind::DepthTexture);
            l.push(BindingKind::FilteringSampler);
            l.push(BindingKind::SettingsUniform);
        },
    }
    proof {
        assert(l@ =~= spec_stage_layout(f));
    }
    l
}

/// Builds the shadow set layout of the post-process stage.
pub fn build_shadow_layout() -> (l: Vec<BindingKind>)
    ensures
        l@ == shadow_layout(),
{
    let mut l: Vec<BindingKind> = Vec::new();
    l.push(BindingKind::ShadowDepthArray);
    l.push(BindingKind::ComparisonSampler);
    l.push(BindingKind::LightUniform);
    proof {
        assert(l@ =~= shadow_layout());
    }
    l
}

/// The layout sizes fixed by the kernel contract: nine bindings for the
/// table kernels, ten for radiance, twelve plus a three-binding shadow set
/// for post-processing.
pub proof fn lemma_layout_sizes()
    ensures
        lut_layout().len() == 9,
        radiance_layout().len() == 10,
        post_process_layout().len() == 12,
        shadow_layout().len() == 3,
{
}

/// True when every kernel of a report has compiled.
pub open spec fn all_compiled(reports: Seq<bool>) -> bool {
    forall|i: int| 0 <= i < reports.len() ==> reports[i]
}

/// One stage family's registry: the declared layout and the compile state of
/// the submitted kernels.
pub struct PipelineRegistry {
    family: StageFamily,
    state: StageState,
}

impl PipelineRegistry {
    pub closed spec fn family(self) -> StageFamily {
        self.family
    }

    pub closed spec fn state(self) -> StageState {
        self.state
    }

    pub open spec fn is_ready(self) -> bool {
        self.state() is Ready
    }

    /// A fresh registry: kernels submitted, compilation pending.
    pub fn new(family: StageFamily) -> (r: PipelineRegistry)
        ensures
            r.family() == family,
            r.state() is Loading,
    {
        PipelineRegistry { family, state: StageState::Loading }
    }

    /// Whether the stage's kernels have all compiled.
    pub fn state_is_ready(&self) -> (r: bool)
        ensures
            r == self.is_ready(),
    {
        match self.state {
            StageState::Ready => true,
            StageState::Loading => false,
        }
    }

    /// The non-blocking once-per-frame poll of the asynchronous compiler.
    /// `compiled` reports, kernel by kernel, whether compilation succeeded.
    ///
    /// The transition is monotonic: once `Ready`, a stage never returns to
    /// `Loading`; and `Ready` is entered exactly when every kernel of the
    /// stage has compiled.
    pub fn poll(&mut self, compiled: &Vec<bool>)
        requires
            compiled@.len() == spec_kernel_count(old(self).family()),
        ensures
            final(self).family() == old(self).family(),
            old(self).is_ready() ==> final(self).is_ready(),
            final(self).is_ready() <==> (old(self).is_ready() || all_compiled(compiled@)),
    {
        match self.state {
            StageState::Ready => {},
            StageState::Loading => {
                let mut all = true;
                let mut i: usize = 0;
                while i < compiled.len()
                    invariant
                        i <= compiled@.len(),
                        all <==> (forall|j: int| 0 <= j < i ==> compiled@[j]),
                    decreases compiled@.len() - i,
                {
                    if !compiled[i] {
                        all = false;
                    }
                    i = i + 1;
                }
                if all {
                    self.state = StageState::Ready;
                }
            },
        }
    }
}

} // verus!
