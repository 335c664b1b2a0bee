//! The commands a stage records onto the frame's ordered command stream.
//!
//! A stage never talks to a device directly: it records `GpuOp` values, and
//! the embedding runtime submits them in recording order.  Dispatch grids are
//! literal and deterministic, fixed by the kernel contract.

use vstd::prelude::*;
use crate::resources::FACE_SIZE;
use crate::resources::TextureId;
use crate::resources::spec_texture_desc;

verus! {

/// Side of the square workgroup tile every compute kernel is written for.
pub const TILE_SIZE: u32 = 8;

/// The five compute kernel entry points.
#[derive(Clone, Copy, Debug, PartialEq, Eq, Structural)]
pub enum Kernel {
    Transmittance,
    MultipleScattering,
    SunTransmittance,
    SpecularRadiance,
    DiffuseRadiance,
}

/// The literal dispatch grid of each kernel.
pub open spec fn spec_dispatch_grid(k: Kernel) -> (u32, u32, u32) {
    match k {
        Kernel::Transmittance => (32, 8, 1),
        Kernel::MultipleScattering => (4, 4, 1),
        Kernel::SunTransmittance => (1, 1, 1),
        Kernel::SpecularRadiance => (32, 192, 1),
        Kernel::DiffuseRadiance => (32, 192, 1),
    }
}

/// The dispatch grid a kernel is launched with.
pub fn dispatch_grid(k: Kernel) -> (g: (u32, u32, u32))
    ensures
        g == spec_dispatch_grid(k),
{
    match k {
        Kernel::Transmittance => (32, 8, 1),
        Kernel::MultipleScattering => (4, 4, 1),
        Kernel::SunTransmittance => (1, 1, 1),
        Kernel::SpecularRadiance => (32, 192, 1),
        Kernel::DiffuseRadiance => (32, 192, 1),
    }
}

/// The storage texture each compute kernel writes.
pub open spec fn spec_kernel_target(k: Kernel) -> TextureId {
    match k {
        Kernel::Transmittance => TextureId::TransmittanceLut,
        Kernel::MultipleScattering => TextureId::MultipleScatteringLut,
        Kernel::SunTransmittance => TextureId::SunTransmittanceLut,
        Kernel::SpecularRadiance => TextureId::SpecularAtlas,
        Kernel::DiffuseRadiance => TextureId::DiffuseAtlas,
    }
}

/// The texture bound to each sampled-input slot of a kernel's shared layout,
/// in slot order.  A slot the kernel does not read is filled with the
/// placeholder texture rather than varying the layout; a kernel never reads
/// its own write target.
pub open spec fn spec_kernel_inputs(k: Kernel) -> Seq<TextureId> {
    match k {
        Kernel::Transmittance => seq![
            TextureId::Placeholder,
            TextureId::MultipleScatteringLut,
            TextureId::CloudVolume,
        ],
        Kernel::MultipleScattering => seq![
            TextureId::TransmittanceLut,
            TextureId::Placeholder,
            TextureId::CloudVolume,
        ],
        Kernel::SunTransmittance => seq![
            TextureId::TransmittanceLut,
            TextureId::MultipleScatteringLut,
            TextureId::CloudVolume,
        ],
        Kernel::SpecularRadiance => seq![
            TextureId::TransmittanceLut,
            TextureId::MultipleScatteringLut,
            TextureId::CloudVolume,
            TextureId::Placeholder,
        ],
        Kernel::DiffuseRadiance => seq![
            TextureId::TransmittanceLut,
            TextureId::MultipleScatteringLut,
            TextureId::CloudVolume,
            TextureId::SpecularAtlas,
        ],
    }
}

/// The textures bound to a kernel's sampled-input slots, in slot order.
pub fn kernel_inputs(k: Kernel) -> (inputs: Vec<TextureId>)
    ensures
        inputs@ == spec_kernel_inputs(k),
{
    let mut inputs: Vec<TextureId> = Vec::new();
    match k {
        Kernel::Transmittance => {
            inputs.push(TextureId::Placeholder);
            inputs.push(TextureId::MultipleScatteringLut);
            inputs.push(TextureId::CloudVolume);
        },
        Kernel::MultipleScattering => {
            inputs.push(TextureId::TransmittanceLut);
            inputs.push(TextureId::Placeholder);
            inputs.push(TextureId::CloudVolume);
        },
        Kernel::SunTransmittance => {
            inputs.push(TextureId::TransmittanceLut);
            inputs.push(TextureId::MultipleScatteringLut);
            inputs.push(TextureId::CloudVolume);
        },
        Kernel::SpecularRadiance => {
            inputs.push(TextureId::TransmittanceLut);
            inputs.push(TextureId::MultipleScatteringLut);
            inputs.push(TextureId::CloudVolume);
            inputs.push(TextureId::Placeholder);
        },
        Kernel::DiffuseRadiance => {
            inputs.push(TextureId::TransmittanceLut);
            inputs.push(TextureId::MultipleScatteringLut);
            inputs.push(TextureId::CloudVolume);
            inputs.push(TextureId::SpecularAtlas);
        },
    }
    proof {
        assert(inputs@ =~= spec_kernel_inputs(k));
    }
    inputs
}

/// The textures whose contents a kernel actually samples.  Bindings are a
/// superset of this: a slot may hold the placeholder, or a texture the entry
/// point never touches, purely to keep the shared layout.
pub open spec fn spec_kernel_reads(k: Kernel) -> Seq<TextureId> {
    match k {
        Kernel::Transmittance => Seq::empty(),
        Kernel::MultipleScattering => seq![TextureId::TransmittanceLut],
        Kernel::SunTransmittance => seq![TextureId::TransmittanceLut],
        Kernel::SpecularRadiance => seq![
            TextureId::TransmittanceLut,
            TextureId::MultipleScatteringLut,
            TextureId::CloudVolume,
        ],
        Kernel::DiffuseRadiance => seq![
            TextureId::TransmittanceLut,
            TextureId::MultipleScatteringLut,
            TextureId::CloudVolume,
            TextureId::SpecularAtlas,
        ],
    }
}

/// Every texture a kernel reads is among its bound inputs: the shared layout
/// always carries what the entry point needs.
pub proof fn lemma_reads_are_bound(k: Kernel, t: TextureId)
    requires
        spec_kernel_reads(k).contains(t),
    ensures
        spec_kernel_inputs(k).contains(t),
{
    let reads = spec_kernel_reads(k);
    let j = choose|j: int| 0 <= j < reads.len() && reads[j] == t;
    match k {
        Kernel::Transmittance => {},
        Kernel::MultipleScattering => {
            assert(spec_kernel_inputs(k)[0] == t);
        },
        Kernel::SunTransmittance => {
            assert(spec_kernel_inputs(k)[0] == t);
        },
        Kernel::SpecularRadiance => {
            assert(spec_kernel_inputs(k)[j] == t);
        },
        Kernel::DiffuseRadiance => {
            assert(spec_kernel_inputs(k)[j] == t);
        },
    }
}

/// Whether the aerial-perspective draw blends or merely copies its input.
#[derive(Clone, Copy, Debug, PartialEq, Eq, Structural)]
pub enum PassMode {
    /// Blend the in-scattered light into the color buffer.
    Composite,
    /// Leave the color buffer as it is; the pass is a no-op copy.
    PassThrough,
}

/// One recorded command.
#[derive(Clone, Copy, Debug, PartialEq, Eq, Structural)]
pub enum GpuOp {
    /// A compute dispatch writing `target` through the stage's layout.
    Dispatch { kernel: Kernel, grid_x: u32, grid_y: u32, grid_z: u32, target: TextureId },
    /// A copy of one square face slice of an atlas into one cubemap layer.
    CopyFace { src: TextureId, src_y: u32, dst: TextureId, dst_layer: u32, width: u32, height: u32 },
    /// The full-screen aerial-perspective draw.
    Draw { mode: PassMode },
}

/// The texture a command writes, if it writes one of the pipeline's
/// textures.  The aerial-perspective draw writes the view's color buffer,
/// which the renderer owns.
pub open spec fn op_writes(op: GpuOp) -> Option<TextureId> {
    match op {
        GpuOp::Dispatch { target, .. } => Some(target),
        GpuOp::CopyFace { dst, .. } => Some(dst),
        GpuOp::Draw { .. } => None,
    }
}

/// Whether a command reads the contents of texture `t`.
pub open spec fn op_reads(op: GpuOp, t: TextureId) -> bool {
    match op {
        GpuOp::Dispatch { kernel, .. } => spec_kernel_reads(kernel).contains(t),
        GpuOp::CopyFace { src, .. } => src == t,
        GpuOp::Draw { .. } => t == TextureId::TransmittanceLut || t
            == TextureId::MultipleScatteringLut || t == TextureId::CloudVolume,
    }
}

/// The dispatch command of a kernel, with its literal grid.
pub open spec fn dispatch_op(k: Kernel) -> GpuOp {
    GpuOp::Dispatch {
        kernel: k,
        grid_x: spec_dispatch_grid(k).0,
        grid_y: spec_dispatch_grid(k).1,
        grid_z: spec_dispatch_grid(k).2,
        target: spec_kernel_target(k),
    }
}

/// The copy of face `face`: source row offset `face * 256` in the atlas,
/// destination array layer `face` of the cubemap, extent one square face.
pub open spec fn face_copy_op(atlas: TextureId, cube: TextureId, face: u32) -> GpuOp {
    GpuOp::CopyFace {
        src: atlas,
        src_y: (face * FACE_SIZE) as u32,
        dst: cube,
        dst_layer: face,
        width: FACE_SIZE,
        height: FACE_SIZE,
    }
}

/// The storage texture a kernel writes.
pub fn kernel_target(k: Kernel) -> (t: TextureId)
    ensures
        t == spec_kernel_target(k),
{
    match k {
        Kernel::Transmittance => TextureId::TransmittanceLut,
        Kernel::MultipleScattering => TextureId::MultipleScatteringLut,
        Kernel::SunTransmittance => TextureId::SunTransmittanceLut,
        Kernel::SpecularRadiance => TextureId::SpecularAtlas,
        Kernel::DiffuseRadiance => TextureId::DiffuseAtlas,
    }
}

/// Records the dispatch command of a kernel.
pub fn make_dispatch(k: Kernel) -> (op: GpuOp)
    ensures
        op == dispatch_op(k),
{
    let grid = dispatch_grid(k);
    let target = kernel_target(k);
    GpuOp::Dispatch { kernel: k, grid_x: grid.0, grid_y: grid.1, grid_z: grid.2, target }
}

/// Records the copy command of one atlas face.
pub fn make_face_copy(atlas: TextureId, cube: TextureId, face: u32) -> (op: GpuOp)
    requires
        face < 6,
    ensures
        op == face_copy_op(atlas, cube, face),
{
    GpuOp::CopyFace {
        src: atlas,
        src_y: face * FACE_SIZE,
        dst: cube,
        dst_layer: face,
        width: FACE_SIZE,
        height: FACE_SIZE,
    }
}

/// The dispatch grids are literal and deterministic: transmittance launches
/// `(32, 8, 1)`, multiple scattering `(4, 4, 1)`, sun transmittance
/// `(1, 1, 1)`, and both radiance kernels `(32, 192, 1)`.
pub proof fn lemma_dispatch_grids_are_fixed()
    ensures
        spec_dispatch_grid(Kernel::Transmittance) == (32u32, 8u32, 1u32),
        spec_dispatch_grid(Kernel::MultipleScattering) == (4u32, 4u32, 1u32),
        spec_dispatch_grid(Kernel::SunTransmittance) == (1u32, 1u32, 1u32),
        spec_dispatch_grid(Kernel::SpecularRadiance) == (32u32, 192u32, 1u32),
        spec_dispatch_grid(Kernel::DiffuseRadiance) == (32u32, 192u32, 1u32),
{
}

/// Startup validation of the tiling configuration: every tiled kernel's grid,
/// scaled by the eight-texel tile, covers its target texture exactly.  The
/// single-texel sun-transmittance pass is not tiled.
pub proof fn lemma_grids_cover_targets()
    ensures
        spec_dispatch_grid(Kernel::Transmittance).0 * TILE_SIZE == spec_texture_desc(
            spec_kernel_target(Kernel::Transmittance),
        ).width,
        spec_dispatch_grid(Kernel::Transmittance).1 * TILE_SIZE == spec_texture_desc(
            spec_kernel_target(Kernel::Transmittance),
        ).height,
        spec_dispatch_grid(Kernel::MultipleScattering).0 * TILE_SIZE == spec_texture_desc(
            spec_kernel_target(Kernel::MultipleScattering),
        ).width,
        spec_dispatch_grid(Kernel::MultipleScattering).1 * TILE_SIZE == spec_texture_desc(
            spec_kernel_target(Kernel::MultipleScattering),
        ).height,
        spec_dispatch_grid(Kernel::SpecularRadiance).0 * TILE_SIZE == spec_texture_desc(
            spec_kernel_target(Kernel::SpecularRadiance),
        ).width,
        spec_dispatch_grid(Kernel::SpecularRadiance).1 * TILE_SIZE == spec_texture_desc(
            spec_kernel_target(Kernel::SpecularRadiance),
        ).height,
        spec_dispatch_grid(Kernel::DiffuseRadiance).0 * TILE_SIZE == spec_texture_desc(
            spec_kernel_target(Kernel::DiffuseRadiance),
        ).width,
        spec_dispatch_grid(Kernel::DiffuseRadiance).1 * TILE_SIZE == spec_texture_desc(
            spec_kernel_target(Kernel::DiffuseRadiance),
        ).height,
{
}

} // verus!
