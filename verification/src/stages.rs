//! The three pipeline stages and what each one records per frame.
//!
//! Each stage owns its registry, polls it once per frame, and then records
//! commands for the frame.  A stage still `Loading` records nothing; a stage
//! missing any required texture or the parameter snapshot skips the frame
//! and leaves prior texture contents standing.

use vstd::prelude::*;
use crate::ops::GpuOp;
use crate::ops::Kernel;
use crate::ops::PassMode;
use crate::ops::dispatch_op;
use crate::ops::face_copy_op;
use crate::ops::make_dispatch;
use crate::ops::make_face_copy;
use crate::params::F32_BITS_ONE;
use crate::params::F32_BITS_ZERO;
use crate::params::is_zero_bits;
use crate::registry::PipelineRegistry;
use crate::registry::StageFamily;
use crate::registry::StageState;
use crate::registry::spec_kernel_count;
use crate::resources::ResourceSet;
use crate::resources::TextureId;

verus! {

/// The stage family a kernel belongs to.
pub open spec fn spec_kernel_family(k: Kernel) -> StageFamily {
    match k {
        Kernel::Transmittance => StageFamily::Lut,
        Kernel::MultipleScattering => StageFamily::Lut,
        Kernel::SunTransmittance => StageFamily::Lut,
        Kernel::SpecularRadiance => StageFamily::Radiance,
        Kernel::DiffuseRadiance => StageFamily::Radiance,
    }
}

/// The bindings a table pass needs resolved before it records: the three
/// lookup tables, the cloud volume, the placeholder filling unused slots,
/// and the parameter snapshot.
pub open spec fn lut_resources_present(res: ResourceSet) -> bool {
    &&& res.has(TextureId::TransmittanceLut)
    &&& res.has(TextureId::MultipleScatteringLut)
    &&& res.has(TextureId::SunTransmittanceLut)
    &&& res.has(TextureId::CloudVolume)
    &&& res.has(TextureId::Placeholder)
    &&& res.params_snapshot() is Some
}

/// The bindings the radiance stage needs resolved: the lookup tables it
/// samples, both atlases, both cubemaps, and the parameter snapshot.
pub open spec fn radiance_resources_present(res: ResourceSet) -> bool {
    &&& res.has(TextureId::TransmittanceLut)
    &&& res.has(TextureId::MultipleScatteringLut)
    &&& res.has(TextureId::CloudVolume)
    &&& res.has(TextureId::Placeholder)
    &&& res.has(TextureId::DiffuseAtlas)
    &&& res.has(TextureId::DiffuseCubemap)
    &&& res.has(TextureId::SpecularAtlas)
    &&& res.has(TextureId::SpecularCubemap)
    &&& res.params_snapshot() is Some
}

/// The bindings the post-process stage needs resolved: the lookup tables and
/// the parameter snapshot (the color buffer, depth buffer and light data are
/// handed in by the renderer with the view itself).
pub open spec fn post_resources_present(res: ResourceSet) -> bool {
    &&& res.has(TextureId::TransmittanceLut)
    &&& res.has(TextureId::MultipleScatteringLut)
    &&& res.has(TextureId::CloudVolume)
    &&& res.params_snapshot() is Some
}

/// What one table pass records: its single dispatch when the stage is ready
/// and every binding resolves, nothing otherwise.
pub open spec fn lut_pass_plan(state: StageState, res: ResourceSet, k: Kernel) -> Seq<GpuOp> {
    if state is Ready && lut_resources_present(res) {
        seq![dispatch_op(k)]
    } else {
        Seq::empty()
    }
}

/// The six face copies of one atlas into its cubemap, in face order.
pub open spec fn face_copies(atlas: TextureId, cube: TextureId) -> Seq<GpuOp> {
    seq![
        face_copy_op(atlas, cube, 0),
        face_copy_op(atlas, cube, 1),
        face_copy_op(atlas, cube, 2),
        face_copy_op(atlas, cube, 3),
        face_copy_op(atlas, cube, 4),
        face_copy_op(atlas, cube, 5),
    ]
}

/// What one radiance run records: the specular dispatch, then the diffuse
/// dispatch (which reads the atlas the specular dispatch just wrote), then
/// the six face copies of each atlas into its cubemap.
pub open spec fn radiance_run_ops() -> Seq<GpuOp> {
    seq![dispatch_op(Kernel::SpecularRadiance), dispatch_op(Kernel::DiffuseRadiance)]
        + face_copies(TextureId::DiffuseAtlas, TextureId::DiffuseCubemap)
        + face_copies(TextureId::SpecularAtlas, TextureId::SpecularCubemap)
}

/// What the radiance stage records for a frame.
pub open spec fn radiance_plan(state: StageState, res: ResourceSet) -> Seq<GpuOp> {
    if state is Ready && radiance_resources_present(res) {
        radiance_run_ops()
    } else {
        Seq::empty()
    }
}

/// What the post-process stage records for a view: one full-screen draw,
/// compositing when the `show` toggle is on and passing the color buffer
/// through unchanged when it holds (either) floating zero.
pub open spec fn post_plan(state: StageState, res: ResourceSet, show: u32) -> Seq<GpuOp> {
    if state is Ready && post_resources_present(res) {
        if is_zero_bits(show) {
            seq![GpuOp::Draw { mode: PassMode::PassThrough }]
        } else {
            seq![GpuOp::Draw { mode: PassMode::Composite }]
        }
    } else {
        Seq::empty()
    }
}

/// While a stage reports `Loading`, zero commands are recorded for it,
/// whatever the resources, the kernel or the settings.
pub proof fn lemma_loading_records_nothing(res: ResourceSet, k: Kernel, show: u32)
    ensures
        lut_pass_plan(StageState::Loading, res, k) == Seq::<GpuOp>::empty(),
        radiance_plan(StageState::Loading, res) == Seq::<GpuOp>::empty(),
        post_plan(StageState::Loading, res, show) == Seq::<GpuOp>::empty(),
{
}

/// True of the command that copies a face slice out of `atlas`.
pub open spec fn is_face_copy_from(op: GpuOp, atlas: TextureId) -> bool {
    op matches GpuOp::CopyFace { src, .. } && src == atlas
}

/// How many of the first `n` commands copy a face slice out of `atlas`.
pub open spec fn copy_count_upto(s: Seq<GpuOp>, atlas: TextureId, n: int) -> nat
    decreases n,
{
    if n <= 0 {
        0
    } else {
        copy_count_upto(s, atlas, n - 1) + if is_face_copy_from(s[n - 1], atlas) {
            1nat
        } else {
            0nat
        }
    }
}

/// How many recorded commands copy a face slice out of `atlas`.
pub open spec fn copy_count(s: Seq<GpuOp>, atlas: TextureId) -> nat {
    copy_count_upto(s, atlas, s.len() as int)
}

/// The face-copy invariant: a radiance run records exactly six copy
/// commands per atlas, and the copy of face `f` reads the atlas at row
/// offset `f * 256` and writes cubemap array layer `f`, for `f` in `0..6`.
pub proof fn lemma_radiance_face_copy_invariant()
    ensures
        radiance_run_ops().len() == 14,
        copy_count(radiance_run_ops(), TextureId::DiffuseAtlas) == 6,
        copy_count(radiance_run_ops(), TextureId::SpecularAtlas) == 6,
        forall|f: int|
            0 <= f < 6 ==> #[trigger] radiance_run_ops()[2 + f] == face_copy_op(
                TextureId::DiffuseAtlas,
                TextureId::DiffuseCubemap,
                f as u32,
            ),
        forall|f: int|
            0 <= f < 6 ==> #[trigger] radiance_run_ops()[8 + f] == face_copy_op(
                TextureId::SpecularAtlas,
                TextureId::SpecularCubemap,
                f as u32,
            ),
        forall|f: u32|
            f < 6 ==> (#[trigger] face_copy_op(TextureId::DiffuseAtlas, TextureId::DiffuseCubemap, f)
                matches GpuOp::CopyFace { src_y, dst_layer, .. } && src_y == f * 256 && dst_layer
                == f),
        forall|f: u32|
            f < 6 ==> (#[trigger] face_copy_op(TextureId::SpecularAtlas, TextureId::SpecularCubemap, f)
                matches GpuOp::CopyFace { src_y, dst_layer, .. } && src_y == f * 256 && dst_layer
                == f),
{
    reveal_with_fuel(copy_count_upto, 16);
    let ops = radiance_run_ops();
    assert forall|f: int| 0 <= f < 6 implies #[trigger] ops[2 + f] == face_copy_op(
        TextureId::DiffuseAtlas,
        TextureId::DiffuseCubemap,
        f as u32,
    ) by {
        assert(ops[2 + f] == face_copies(TextureId::DiffuseAtlas, TextureId::DiffuseCubemap)[f]);
    }
    assert forall|f: int| 0 <= f < 6 implies #[trigger] ops[8 + f] == face_copy_op(
        TextureId::SpecularAtlas,
        TextureId::SpecularCubemap,
        f as u32,
    ) by {
        assert(ops[8 + f] == face_copies(TextureId::SpecularAtlas, TextureId::SpecularCubemap)[f]);
    }
    assert(copy_count(ops, TextureId::DiffuseAtlas) == 6);
    assert(copy_count(ops, TextureId::SpecularAtlas) == 6);
}

/// The diffuse dispatch reads the specular atlas, so a radiance run records
/// the dispatch that writes the specular atlas strictly before the dispatch
/// that samples it.
pub proof fn lemma_diffuse_reads_after_specular_write()
    ensures
        radiance_run_ops()[0] == dispatch_op(Kernel::SpecularRadiance),
        crate::ops::spec_kernel_target(Kernel::SpecularRadiance) == TextureId::SpecularAtlas,
        radiance_run_ops()[1] == dispatch_op(Kernel::DiffuseRadiance),
        crate::ops::spec_kernel_inputs(Kernel::DiffuseRadiance).contains(TextureId::SpecularAtlas),
{
    assert(crate::ops::spec_kernel_inputs(Kernel::DiffuseRadiance)[3] == TextureId::SpecularAtlas);
}

/// Checks the table stage's required bindings.
fn lut_resources_check(res: &ResourceSet) -> (ok: bool)
    ensures
        ok == lut_resources_present(*res),
{
    res.get(TextureId::TransmittanceLut).is_some() && res.get(
        TextureId::MultipleScatteringLut,
    ).is_some() && res.get(TextureId::SunTransmittanceLut).is_some() && res.get(
        TextureId::CloudVolume,
    ).is_some() && res.get(TextureId::Placeholder).is_some() && res.params().is_some()
}

/// Checks the radiance stage's required bindings.
fn radiance_resources_check(res: &ResourceSet) -> (ok: bool)
    ensures
        ok == radiance_resources_present(*res),
{
    res.get(TextureId::TransmittanceLut).is_some() && res.get(
        TextureId::MultipleScatteringLut,
    ).is_some() && res.get(TextureId::CloudVolume).is_some() && res.get(
        TextureId::Placeholder,
    ).is_some() && res.get(TextureId::DiffuseAtlas).is_some() && res.get(
        TextureId::DiffuseCubemap,
    ).is_some() && res.get(TextureId::SpecularAtlas).is_some() && res.get(
        TextureId::SpecularCubemap,
    ).is_some() && res.params().is_some()
}

/// Checks the post-process stage's required bindings.
fn post_resources_check(res: &ResourceSet) -> (ok: bool)
    ensures
        ok == post_resources_present(*res),
{
    res.get(TextureId::TransmittanceLut).is_some() && res.get(
        TextureId::MultipleScatteringLut,
    ).is_some() && res.get(TextureId::CloudVolume).is_some() && res.params().is_some()
}

/// The stage computing the transmittance, multiple-scattering and
/// sun-transmittance lookup tables.
pub struct LutStage {
    registry: PipelineRegistry,
}

impl LutStage {
    pub closed spec fn state(self) -> StageState {
        self.registry.state()
    }

    pub closed spec fn wf(self) -> bool {
        self.registry.family() == StageFamily::Lut
    }

    /// A fresh stage: three kernels submitted, still compiling.
    pub fn new() -> (s: LutStage)
        ensures
            s.wf(),
            s.state() is Loading,
    {
        LutStage { registry: PipelineRegistry::new(StageFamily::Lut) }
    }

    /// Polls the compiler for the stage's three kernels.
    pub fn poll(&mut self, compiled: &Vec<bool>)
        requires
            old(self).wf(),
            compiled@.len() == spec_kernel_count(StageFamily::Lut),
        ensures
            final(self).wf(),
            old(self).state() is Ready ==> final(self).state() is Ready,
            final(self).state() is Ready <==> (old(self).state() is Ready
                || crate::registry::all_compiled(compiled@)),
    {
        self.registry.poll(compiled);
    }

    /// Records one table pass.  While the stage is `Loading`, or while any
    /// required binding is absent, nothing is recorded.
    pub fn record_pass(&self, k: Kernel, res: &ResourceSet) -> (recorded: Vec<GpuOp>)
        requires
            spec_kernel_family(k) == StageFamily::Lut,
        ensures
            recorded@ == lut_pass_plan(self.state(), *res, k),
            self.state() is Loading ==> recorded@.len() == 0,
    {
        let mut recorded: Vec<GpuOp> = Vec::new();
        let ready = self.registry.state_is_ready();
        if ready {
            if lut_resources_check(res) {
                recorded.push(make_dispatch(k));
            }
        }
        proof {
            assert(recorded@ =~= lut_pass_plan(self.state(), *res, k));
        }
        recorded
    }
}

/// The stage computing the radiance atlases and copying their faces into the
/// sky cubemaps.
pub struct RadianceStage {
    registry: PipelineRegistry,
}

impl RadianceStage {
    pub closed spec fn state(self) -> StageState {
        self.registry.state()
    }

    pub closed spec fn wf(self) -> bool {
        self.registry.family() == StageFamily::Radiance
    }

    /// A fresh stage: both radiance kernels submitted, still compiling.
    pub fn new() -> (s: RadianceStage)
        ensures
            s.wf(),
            s.state() is Loading,
    {
        RadianceStage { registry: PipelineRegistry::new(StageFamily::Radiance) }
    }

    /// Polls the compiler for the stage's two kernels.
    pub fn poll(&mut self, compiled: &Vec<bool>)
        requires
            old(self).wf(),
            compiled@.len() == spec_kernel_count(StageFamily::Radiance),
        ensures
            final(self).wf(),
            old(self).state() is Ready ==> final(self).state() is Ready,
            final(self).state() is Ready <==> (old(self).state() is Ready
                || crate::registry::all_compiled(compiled@)),
    {
        self.registry.poll(compiled);
    }

    /// Records one radiance run: two dispatches and twelve face copies, or
    /// nothing while the stage is `Loading` or a binding is absent.
    pub fn record(&self, res: &ResourceSet) -> (recorded: Vec<GpuOp>)
        ensures
            recorded@ == radiance_plan(self.state(), *res),
            self.state() is Loading ==> recorded@.len() == 0,
    {
        let mut recorded: Vec<GpuOp> = Vec::new();
        let ready = self.registry.state_is_ready();
        if ready {
            if radiance_resources_check(res) {
                recorded.push(make_dispatch(Kernel::SpecularRadiance));
                recorded.push(make_dispatch(Kernel::DiffuseRadiance));
                push_face_copies(&mut recorded, TextureId::DiffuseAtlas, TextureId::DiffuseCubemap);
                push_face_copies(
                    &mut recorded,
                    TextureId::SpecularAtlas,
                    TextureId::SpecularCubemap,
                );
                proof {
                    assert(recorded@ =~= radiance_run_ops());
                }
            }
        }
        proof {
            assert(recorded@ =~= radiance_plan(self.state(), *res));
        }
        recorded
    }
}

/// Appends the six face copies of one atlas into its cubemap.
fn push_face_copies(recorded: &mut Vec<GpuOp>, atlas: TextureId, cube: TextureId)
    ensures
        final(recorded)@ == old(recorded)@ + face_copies(atlas, cube),
{
    recorded.push(make_face_copy(atlas, cube, 0));
    recorded.push(make_face_copy(atlas, cube, 1));
    recorded.push(make_face_copy(atlas, cube, 2));
    recorded.push(make_face_copy(atlas, cube, 3));
    recorded.push(make_face_copy(atlas, cube, 4));
    recorded.push(make_face_copy(atlas, cube, 5));
    proof {
        assert(recorded@ =~= old(recorded)@ + face_copies(atlas, cube));
    }
}

/// Settings of the aerial-perspective pass.  The `show` field carries the
/// bit pattern of a 32-bit float and acts as a boolean toggle: zero bypasses
/// the blend.
#[derive(Clone, Copy, Debug, PartialEq, Eq, Structural)]
pub struct PostProcessSettings {
    pub show: u32,
}

impl PostProcessSettings {
    /// Writes the toggle as the UI collaborator does: on becomes `1.0`, off
    /// becomes `0.0`.
    pub fn set_show(&mut self, enabled: bool)
        ensures
            final(self).show == if enabled {
                F32_BITS_ONE
            } else {
                F32_BITS_ZERO
            },
    {
        self.show = if enabled {
            F32_BITS_ONE
        } else {
            F32_BITS_ZERO
        };
    }
}

impl Default for PostProcessSettings {
    /// Aerial perspective starts switched on.
    fn default() -> (d: Self)
        ensures
            d.show == F32_BITS_ONE,
    {
        PostProcessSettings { show: F32_BITS_ONE }
    }
}

/// The stage compositing aerial perspective into the view's color buffer.
pub struct PostProcessStage {
    registry: PipelineRegistry,
}

impl PostProcessStage {
    pub closed spec fn state(self) -> StageState {
        self.registry.state()
    }

    pub closed spec fn wf(self) -> bool {
        self.registry.family() == StageFamily::PostProcess
    }

    /// A fresh stage: the fragment kernel submitted, still compiling.
    pub fn new() -> (s: PostProcessStage)
        ensures
            s.wf(),
            s.state() is Loading,
    {
        PostProcessStage { registry: PipelineRegistry::new(StageFamily::PostProcess) }
    }

    /// Polls the compiler for the stage's fragment kernel.
    pub fn poll(&mut self, compiled: &Vec<bool>)
        requires
            old(self).wf(),
            compiled@.len() == spec_kernel_count(StageFamily::PostProcess),
        ensures
            final(self).wf(),
            old(self).state() is Ready ==> final(self).state() is Ready,
            final(self).state() is Ready <==> (old(self).state() is Ready
                || crate::registry::all_compiled(compiled@)),
    {
        self.registry.poll(compiled);
    }

    /// Records the per-view draw, or nothing while the stage is `Loading` or
    /// a binding is absent.  When the `show` toggle holds zero the draw is
    /// recorded as a pure pass-through.
    pub fn record(&self, res: &ResourceSet, settings: &PostProcessSettings) -> (recorded: Vec<
        GpuOp,
    >)
        ensures
            recorded@ == post_plan(self.state(), *res, settings.show),
            self.state() is Loading ==> recorded@.len() == 0,
    {
        let mut recorded: Vec<GpuOp> = Vec::new();
        let ready = self.registry.state_is_ready();
        if ready {
            if post_resources_check(res) {
                let mode = if settings.show == F32_BITS_ZERO || settings.show
                    == crate::params::F32_BITS_NEG_ZERO {
                    PassMode::PassThrough
                } else {
                    PassMode::Composite
                };
                recorded.push(GpuOp::Draw { mode });
            }
        }
        proof {
            assert(recorded@ =~= post_plan(self.state(), *res, settings.show));
        }
        recorded
    }
}

/// Resolves the color buffer a view ends the frame with: the device-blended
/// buffer when a composite draw was recorded, the input buffer unchanged
/// otherwise.  With the `show` toggle at zero nothing composites, so the
/// output equals the input.
pub fn resolve_color_output(input: &Vec<u32>, composited: Vec<u32>, recorded: &Vec<GpuOp>) -> (out:
    Vec<u32>)
    ensures
        composites(recorded@) ==> out@ == composited@,
        !composites(recorded@) ==> out@ == input@,
{
    let mut i: usize = 0;
    let mut found = false;
    while i < recorded.len()
        invariant
            i <= recorded@.len(),
            found == exists|j: int|
                0 <= j < i && recorded@[j] == (GpuOp::Draw { mode: PassMode::Composite }),
        decreases recorded@.len() - i,
    {
        match recorded[i] {
            GpuOp::Draw { mode: PassMode::Composite } => {
                found = true;
            },
            _ => {},
        }
        i = i + 1;
    }
    if found {
        composited
    } else {
        clone_buffer(input)
    }
}

/// True when the recorded commands blend into the color buffer.
pub open spec fn composites(recorded: Seq<GpuOp>) -> bool {
    exists|j: int| 0 <= j < recorded.len() && recorded[j] == (GpuOp::Draw { mode: PassMode::Composite })
}

/// Copies a color buffer word for word.
fn clone_buffer(input: &Vec<u32>) -> (out: Vec<u32>)
    ensures
        out@ == input@,
{
    let mut out: Vec<u32> = Vec::new();
    let mut i: usize = 0;
    while i < input.len()
        invariant
            i <= input@.len(),
            out@ == input@.subrange(0, i as int),
        decreases input@.len() - i,
    {
        out.push(input[i]);
        proof {
            assert(out@ =~= input@.subrange(0, i + 1));
        }
        i = i + 1;
    }
    proof {
        assert(input@.subrange(0, input@.len() as int) =~= input@);
    }
    out
}

} // verus!
