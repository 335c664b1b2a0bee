//! The per-frame scheduler.
//!
//! The stage dependency graph is fixed and small: the transmittance table is
//! computed first, then multiple scattering (which reads it), then sun
//! transmittance and the radiance stage (both read the tables, in either
//! order), then the aerial-perspective pass.  The scheduler walks that order
//! once per frame, polling each stage's readiness first and letting every
//! not-yet-ready or under-provisioned stage degrade to a no-op.

use vstd::prelude::*;
use crate::ops::GpuOp;
use crate::ops::Kernel;
use crate::ops::PassMode;
use crate::ops::dispatch_op;
use crate::ops::face_copy_op;
use crate::ops::op_reads;
use crate::ops::op_writes;
use crate::params::is_zero_bits;
use crate::registry::StageFamily;
use crate::registry::StageState;
use crate::registry::all_compiled;
use crate::registry::spec_kernel_count;
use crate::resources::ResourceSet;
use crate::resources::TextureId;
use crate::stages::LutStage;
use crate::stages::PostProcessSettings;
use crate::stages::PostProcessStage;
use crate::stages::RadianceStage;
use crate::stages::face_copies;
use crate::stages::lut_pass_plan;
use crate::stages::post_plan;
use crate::stages::radiance_plan;
use crate::stages::radiance_run_ops;

verus! {

/// The five passes of one frame, in recording order.
#[derive(Clone, Copy, Debug, PartialEq, Eq, Structural)]
pub enum PassTag {
    Transmittance,
    MultipleScattering,
    SunTransmittance,
    Radiance,
    PostProcess,
}

/// One executed pass: its place in the graph and what it recorded.
#[derive(Debug)]
pub struct PassRecord {
    pub tag: PassTag,
    pub ops: Vec<GpuOp>,
}

/// Everything one frame recorded, pass by pass, in recording order.
#[derive(Debug)]
pub struct FrameLog {
    pub passes: Vec<PassRecord>,
}

/// The fixed recording order of the passes.
pub open spec fn pass_order() -> Seq<PassTag> {
    seq![
        PassTag::Transmittance,
        PassTag::MultipleScattering,
        PassTag::SunTransmittance,
        PassTag::Radiance,
        PassTag::PostProcess,
    ]
}

/// The commands of a frame in which every stage is ready and every binding
/// resolves, flattened in recording order.
pub open spec fn ready_frame_ops(show: u32) -> Seq<GpuOp> {
    seq![
        dispatch_op(Kernel::Transmittance),
        dispatch_op(Kernel::MultipleScattering),
        dispatch_op(Kernel::SunTransmittance),
    ] + radiance_run_ops() + seq![
        GpuOp::Draw {
            mode: if is_zero_bits(show) {
                PassMode::PassThrough
            } else {
                PassMode::Composite
            },
        },
    ]
}

/// Recording order alone carries the frame's data dependencies: on the
/// single ordered command stream of a fully ready frame, every command that
/// reads a texture some command writes comes strictly after that write, and
/// no two dispatches write the same texture.  No further coordination is
/// needed within a frame.
pub proof fn lemma_frame_orders_writes_before_reads(show: u32)
    ensures
        ready_frame_ops(show).len() == 18,
        forall|i: int, j: int, t: TextureId|
            0 <= i < ready_frame_ops(show).len() && 0 <= j < ready_frame_ops(show).len() && (
            #[trigger] op_writes(ready_frame_ops(show)[i])) == Some(t) && (#[trigger] op_reads(
                ready_frame_ops(show)[j],
                t,
            )) ==> i < j,
        forall|i: int, j: int|
            0 <= i < ready_frame_ops(show).len() && 0 <= j < ready_frame_ops(show).len()
                && (#[trigger] ready_frame_ops(show)[i]) is Dispatch && (
            #[trigger] ready_frame_ops(show)[j]) is Dispatch && op_writes(ready_frame_ops(show)[i])
                == op_writes(ready_frame_ops(show)[j]) ==> i == j,
{
    let s = ready_frame_ops(show);
    assert(s.len() == 18);
    assert(s[0] == dispatch_op(Kernel::Transmittance));
    assert(s[1] == dispatch_op(Kernel::MultipleScattering));
    assert(s[2] == dispatch_op(Kernel::SunTransmittance));
    assert(s[3] == radiance_run_ops()[0]);
    assert(s[4] == radiance_run_ops()[1]);
    assert forall|f: int| 0 <= f < 6 implies #[trigger] s[5 + f] == face_copy_op(
        TextureId::DiffuseAtlas,
        TextureId::DiffuseCubemap,
        f as u32,
    ) by {
        assert(s[5 + f] == radiance_run_ops()[2 + f]);
        assert(radiance_run_ops()[2 + f] == face_copies(
            TextureId::DiffuseAtlas,
            TextureId::DiffuseCubemap,
        )[f]);
    }
    assert forall|f: int| 0 <= f < 6 implies #[trigger] s[11 + f] == face_copy_op(
        TextureId::SpecularAtlas,
        TextureId::SpecularCubemap,
        f as u32,
    ) by {
        assert(s[11 + f] == radiance_run_ops()[8 + f]);
        assert(radiance_run_ops()[8 + f] == face_copies(
            TextureId::SpecularAtlas,
            TextureId::SpecularCubemap,
        )[f]);
    }
    assert(s[17] is Draw);
}

/// The scheduler: owns the three stages and walks the fixed graph.
pub struct Scheduler {
    lut: LutStage,
    radiance: RadianceStage,
    post: PostProcessStage,
}

impl Scheduler {
    pub closed spec fn lut_state(self) -> StageState {
        self.lut.state()
    }

    pub closed spec fn radiance_state(self) -> StageState {
        self.radiance.state()
    }

    pub closed spec fn post_state(self) -> StageState {
        self.post.state()
    }

    pub closed spec fn wf(self) -> bool {
        self.lut.wf() && self.radiance.wf() && self.post.wf()
    }

    /// A fresh scheduler: every stage submitted for compilation, none ready.
    pub fn new() -> (s: Scheduler)
        ensures
            s.wf(),
            s.lut_state() is Loading,
            s.radiance_state() is Loading,
            s.post_state() is Loading,
    {
        Scheduler {
            lut: LutStage::new(),
            radiance: RadianceStage::new(),
            post: PostProcessStage::new(),
        }
    }

    /// The once-per-frame readiness poll, one compiler report per stage.
    /// Each stage's transition is monotonic and happens exactly when all of
    /// its kernels have compiled.
    pub fn poll(
        &mut self,
        lut_compiled: &Vec<bool>,
        radiance_compiled: &Vec<bool>,
        post_compiled: &Vec<bool>,
    )
        requires
            old(self).wf(),
            lut_compiled@.len() == spec_kernel_count(StageFamily::Lut),
            radiance_compiled@.len() == spec_kernel_count(StageFamily::Radiance),
            post_compiled@.len() == spec_kernel_count(StageFamily::PostProcess),
        ensures
            final(self).wf(),
            old(self).lut_state() is Ready ==> final(self).lut_state() is Ready,
            old(self).radiance_state() is Ready ==> final(self).radiance_state() is Ready,
            old(self).post_state() is Ready ==> final(self).post_state() is Ready,
            final(self).lut_state() is Ready <==> (old(self).lut_state() is Ready || all_compiled(
                lut_compiled@,
            )),
            final(self).radiance_state() is Ready <==> (old(self).radiance_state() is Ready
                || all_compiled(radiance_compiled@)),
            final(self).post_state() is Ready <==> (old(self).post_state() is Ready
                || all_compiled(post_compiled@)),
    {
        self.lut.poll(lut_compiled);
        self.radiance.poll(radiance_compiled);
        self.post.poll(post_compiled);
    }

    /// Records one frame by walking the fixed graph.  The log always holds
    /// the five passes in recording order; a pass that is not ready or not
    /// fully provisioned contributes an empty record and no error.
    pub fn run_frame(&self, res: &ResourceSet, settings: &PostProcessSettings) -> (log: FrameLog)
        ensures
            log.passes@.len() == 5,
            forall|i: int| 0 <= i < 5 ==> #[trigger] log.passes@[i].tag == pass_order()[i],
            log.passes@[0].ops@ == lut_pass_plan(self.lut_state(), *res, Kernel::Transmittance),
            log.passes@[1].ops@ == lut_pass_plan(
                self.lut_state(),
                *res,
                Kernel::MultipleScattering,
            ),
            log.passes@[2].ops@ == lut_pass_plan(self.lut_state(), *res, Kernel::SunTransmittance),
            log.passes@[3].ops@ == radiance_plan(self.radiance_state(), *res),
            log.passes@[4].ops@ == post_plan(self.post_state(), *res, settings.show),
            self.lut_state() is Loading ==> log.passes@[0].ops@.len() == 0
                && log.passes@[1].ops@.len() == 0 && log.passes@[2].ops@.len() == 0,
            self.radiance_state() is Loading ==> log.passes@[3].ops@.len() == 0,
            self.post_state() is Loading ==> log.passes@[4].ops@.len() == 0,
    {
        let mut passes: Vec<PassRecord> = Vec::new();
        passes.push(
            PassRecord {
                tag: PassTag::Transmittance,
                ops: self.lut.record_pass(Kernel::Transmittance, res),
            },
        );
        passes.push(
            PassRecord {
                tag: PassTag::MultipleScattering,
                ops: self.lut.record_pass(Kernel::MultipleScattering, res),
            },
        );
        passes.push(
            PassRecord {
                tag: PassTag::SunTransmittance,
                ops: self.lut.record_pass(Kernel::SunTransmittance, res),
            },
        );
        passes.push(PassRecord { tag: PassTag::Radiance, ops: self.radiance.record(res) });
        passes.push(
            PassRecord { tag: PassTag::PostProcess, ops: self.post.record(res, settings) },
        );
        FrameLog { passes }
    }
}

} // verus!
