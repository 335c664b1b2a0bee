//! The persistent texture resources and the per-frame parameter snapshot.
//!
//! Every texture the pipeline touches is created once at startup and lives
//! for the whole process.  A consumer that asks for a texture before it has
//! been created and uploaded receives "absent" and must skip its work for the
//! frame; absence is never fatal.

use vstd::prelude::*;
use crate::params::AtmosphereParameters;

verus! {

/// Edge length of one cubemap face, in texels.
pub const FACE_SIZE: u32 = 256;

/// Number of faces of a cubemap, and of face slices of an atlas.
pub const FACE_COUNT: u32 = 6;

/// The nine persistent textures of the pipeline.
#[derive(Clone, Copy, Debug, PartialEq, Eq, Structural)]
pub enum TextureId {
    TransmittanceLut,
    MultipleScatteringLut,
    SunTransmittanceLut,
    CloudVolume,
    Placeholder,
    DiffuseAtlas,
    DiffuseCubemap,
    SpecularAtlas,
    SpecularCubemap,
}

#[derive(Clone, Copy, Debug, PartialEq, Eq, Structural)]
pub enum TextureDimension {
    D2,
    D3,
}

/// Every resource of the pipeline is 32-bit-float four-channel; the single
/// variant keeps the format an explicit part of the contract.
#[derive(Clone, Copy, Debug, PartialEq, Eq, Structural)]
pub enum TextureFormat {
    Rgba32Float,
}

/// Size, dimensionality, format and usage of one texture.
#[derive(Clone, Copy, Debug, PartialEq, Eq, Structural)]
pub struct TextureDesc {
    pub width: u32,
    pub height: u32,
    pub layers: u32,
    pub dimension: TextureDimension,
    pub format: TextureFormat,
    /// May be written as a storage target by a compute kernel.
    pub storage_binding: bool,
    /// May be sampled by a shader.
    pub texture_binding: bool,
    /// May be the source of a texture-to-texture copy.
    pub copy_src: bool,
    /// May be the destination of an upload or a texture-to-texture copy.
    pub copy_dst: bool,
}

/// The fixed table of texture descriptors.
pub open spec fn spec_texture_desc(id: TextureId) -> TextureDesc {
    match id {
        TextureId::TransmittanceLut => TextureDesc {
            width: 256,
            height: 64,
            layers: 1,
            dimension: TextureDimension::D2,
            format: TextureFormat::Rgba32Float,
            storage_binding: true,
            texture_binding: true,
            copy_src: false,
            copy_dst: true,
        },
        TextureId::MultipleScatteringLut => TextureDesc {
            width: 32,
            height: 32,
            layers: 1,
            dimension: TextureDimension::D2,
            format: TextureFormat::Rgba32Float,
            storage_binding: true,
            texture_binding: true,
            copy_src: false,
            copy_dst: true,
        },
        TextureId::SunTransmittanceLut => TextureDesc {
            width: 1,
            height: 1,
            layers: 1,
            dimension: TextureDimension::D2,
            format: TextureFormat::Rgba32Float,
            storage_binding: true,
            texture_binding: true,
            // read back by the host to tint the directional light
            copy_src: true,
            copy_dst: true,
        },
        TextureId::CloudVolume => TextureDesc {
            width: 32,
            height: 32,
            layers: 32,
            dimension: TextureDimension::D3,
            format: TextureFormat::Rgba32Float,
            // reserved density input; no pass writes it yet
            storage_binding: false,
            texture_binding: true,
            copy_src: false,
            copy_dst: true,
        },
        TextureId::Placeholder => TextureDesc {
            width: 1,
            height: 1,
            layers: 1,
            dimension: TextureDimension::D2,
            format: TextureFormat::Rgba32Float,
            storage_binding: true,
            texture_binding: true,
            copy_src: false,
            copy_dst: true,
        },
        TextureId::DiffuseAtlas => TextureDesc {
            width: FACE_SIZE,
            height: (FACE_SIZE * FACE_COUNT) as u32,
            layers: 1,
            dimension: TextureDimension::D2,
            format: TextureFormat::Rgba32Float,
            storage_binding: true,
            texture_binding: true,
            // feeds the cubemap faces
            copy_src: true,
            copy_dst: true,
        },
        TextureId::DiffuseCubemap => TextureDesc {
            width: FACE_SIZE,
            height: FACE_SIZE,
            layers: FACE_COUNT,
            dimension: TextureDimension::D2,
            format: TextureFormat::Rgba32Float,
            storage_binding: false,
            texture_binding: true,
            copy_src: false,
            copy_dst: true,
        },
        TextureId::SpecularAtlas => TextureDesc {
            width: FACE_SIZE,
            height: (FACE_SIZE * FACE_COUNT) as u32,
            layers: 1,
            dimension: TextureDimension::D2,
            format: TextureFormat::Rgba32Float,
            storage_binding: true,
            texture_binding: true,
            copy_src: true,
            copy_dst: true,
        },
        TextureId::SpecularCubemap => TextureDesc {
            width: FACE_SIZE,
            height: FACE_SIZE,
            layers: FACE_COUNT,
            dimension: TextureDimension::D2,
            format: TextureFormat::Rgba32Float,
            storage_binding: false,
            texture_binding: true,
            copy_src: false,
            copy_dst: true,
        },
    }
}

/// The descriptor a texture is created with.
pub fn texture_desc(id: TextureId) -> (d: TextureDesc)
    ensures
        d == spec_texture_desc(id),
{
    match id {
        TextureId::TransmittanceLut => TextureDesc {
            width: 256,
            height: 64,
            layers: 1,
            dimension: TextureDimension::D2,
            format: TextureFormat::Rgba32Float,
            storage_binding: true,
            texture_binding: true,
            copy_src: false,
            copy_dst: true,
        },
        TextureId::MultipleScatteringLut => TextureDesc {
            width: 32,
            height: 32,
            layers: 1,
            dimension: TextureDimension::D2,
            format: TextureFormat::Rgba32Float,
            storage_binding: true,
            texture_binding: true,
            copy_src: false,
            copy_dst: true,
        },
        TextureId::SunTransmittanceLut => TextureDesc {
            width: 1,
            height: 1,
            layers: 1,
            dimension: TextureDimension::D2,
            format: TextureFormat::Rgba32Float,
            storage_binding: true,
            texture_binding: true,
            copy_src: true,
            copy_dst: true,
        },
        TextureId::CloudVolume => TextureDesc {
            width: 32,
            height: 32,
            layers: 32,
            dimension: TextureDimension::D3,
            format: TextureFormat::Rgba32Float,
            storage_binding: false,
            texture_binding: true,
            copy_src: false,
            copy_dst: true,
        },
        TextureId::Placeholder => TextureDesc {
            width: 1,
            height: 1,
            layers: 1,
            dimension: TextureDimension::D2,
            format: TextureFormat::Rgba32Float,
            storage_binding: true,
            texture_binding: true,
            copy_src: false,
            copy_dst: true,
        },
        TextureId::DiffuseAtlas => TextureDesc {
            width: FACE_SIZE,
            height: FACE_SIZE * FACE_COUNT,
            layers: 1,
            dimension: TextureDimension::D2,
            format: TextureFormat::Rgba32Float,
            storage_binding: true,
            texture_binding: true,
            copy_src: true,
            copy_dst: true,
        },
        TextureId::DiffuseCubemap => TextureDesc {
            width: FACE_SIZE,
            height: FACE_SIZE,
            layers: FACE_COUNT,
            dimension: TextureDimension::D2,
            format: TextureFormat::Rgba32Float,
            storage_binding: false,
            texture_binding: true,
            copy_src: false,
            copy_dst: true,
        },
        TextureId::SpecularAtlas => TextureDesc {
            width: FACE_SIZE,
            height: FACE_SIZE * FACE_COUNT,
            layers: 1,
            dimension: TextureDimension::D2,
            format: TextureFormat::Rgba32Float,
            storage_binding: true,
            texture_binding: true,
            copy_src: true,
            copy_dst: true,
        },
        TextureId::SpecularCubemap => TextureDesc {
            width: FACE_SIZE,
            height: FACE_SIZE,
            layers: FACE_COUNT,
            dimension: TextureDimension::D2,
            format: TextureFormat::Rgba32Float,
            storage_binding: false,
            texture_binding: true,
            copy_src: false,
            copy_dst: true,
        },
    }
}

/// An atlas is always one face wide and six faces tall, and its cubemap has
/// six layers of exactly one face each; a copy source pairs with a copy
/// destination.
pub proof fn lemma_atlas_cubemap_pairing()
    ensures
        spec_texture_desc(TextureId::DiffuseAtlas).height == 6 * spec_texture_desc(
            TextureId::DiffuseAtlas,
        ).width,
        spec_texture_desc(TextureId::SpecularAtlas).height == 6 * spec_texture_desc(
            TextureId::SpecularAtlas,
        ).width,
        spec_texture_desc(TextureId::DiffuseCubemap).layers == FACE_COUNT,
        spec_texture_desc(TextureId::SpecularCubemap).layers == FACE_COUNT,
        spec_texture_desc(TextureId::DiffuseCubemap).width == spec_texture_desc(
            TextureId::DiffuseAtlas,
        ).width,
        spec_texture_desc(TextureId::SpecularCubemap).width == spec_texture_desc(
            TextureId::SpecularAtlas,
        ).width,
        spec_texture_desc(TextureId::DiffuseAtlas).copy_src,
        spec_texture_desc(TextureId::DiffuseCubemap).copy_dst,
        spec_texture_desc(TextureId::SpecularAtlas).copy_src,
        spec_texture_desc(TextureId::SpecularCubemap).copy_dst,
{
}

/// A resolved handle: the texture exists on the device with this descriptor.
#[derive(Clone, Copy, Debug, PartialEq, Eq, Structural)]
pub struct TextureHandle {
    pub id: TextureId,
    pub desc: TextureDesc,
}

/// Owner of the persistent textures and of the immutable per-frame parameter
/// snapshot.  One instance per process.
pub struct ResourceSet {
    transmittance_lut: bool,
    multiple_scattering_lut: bool,
    sun_transmittance_lut: bool,
    cloud_volume: bool,
    placeholder: bool,
    diffuse_atlas: bool,
    diffuse_cubemap: bool,
    specular_atlas: bool,
    specular_cubemap: bool,
    params: Option<AtmosphereParameters>,
}

impl ResourceSet {
    /// True when the texture has been created and uploaded.
    pub closed spec fn has(self, id: TextureId) -> bool {
        match id {
            TextureId::TransmittanceLut => self.transmittance_lut,
            TextureId::MultipleScatteringLut => self.multiple_scattering_lut,
            TextureId::SunTransmittanceLut => self.sun_transmittance_lut,
            TextureId::CloudVolume => self.cloud_volume,
            TextureId::Placeholder => self.placeholder,
            TextureId::DiffuseAtlas => self.diffuse_atlas,
            TextureId::DiffuseCubemap => self.diffuse_cubemap,
            TextureId::SpecularAtlas => self.specular_atlas,
            TextureId::SpecularCubemap => self.specular_cubemap,
        }
    }

    /// The parameter snapshot of the current frame, if one has been taken.
    pub closed spec fn params_snapshot(self) -> Option<AtmosphereParameters> {
        self.params
    }

    /// A fresh set: nothing created yet, no snapshot taken.
    pub fn new() -> (r: ResourceSet)
        ensures
            forall|id: TextureId| !r.has(id),
            r.params_snapshot() is None,
    {
        ResourceSet {
            transmittance_lut: false,
            multiple_scattering_lut: false,
            sun_transmittance_lut: false,
            cloud_volume: false,
            placeholder: false,
            diffuse_atlas: false,
            diffuse_cubemap: false,
            specular_atlas: false,
            specular_cubemap: false,
            params: None,
        }
    }

    /// Marks one texture created and uploaded; the rest are untouched.
    pub fn upload(&mut self, id: TextureId)
        ensures
            final(self).has(id),
            forall|o: TextureId| o != id ==> final(self).has(o) == old(self).has(o),
            final(self).params_snapshot() == old(self).params_snapshot(),
    {
        match id {
            TextureId::TransmittanceLut => self.transmittance_lut = true,
            TextureId::MultipleScatteringLut => self.multiple_scattering_lut = true,
            TextureId::SunTransmittanceLut => self.sun_transmittance_lut = true,
            TextureId::CloudVolume => self.cloud_volume = true,
            TextureId::Placeholder => self.placeholder = true,
            TextureId::DiffuseAtlas => self.diffuse_atlas = true,
            TextureId::DiffuseCubemap => self.diffuse_cubemap = true,
            TextureId::SpecularAtlas => self.specular_atlas = true,
            TextureId::SpecularCubemap => self.specular_cubemap = true,
        }
    }

    /// Startup setup: creates every texture of the table.
    pub fn create_all(&mut self)
        ensures
            forall|id: TextureId| final(self).has(id),
            final(self).params_snapshot() == old(self).params_snapshot(),
    {
        self.transmittance_lut = true;
        self.multiple_scattering_lut = true;
        self.sun_transmittance_lut = true;
        self.cloud_volume = true;
        self.placeholder = true;
        self.diffuse_atlas = true;
        self.diffuse_cubemap = true;
        self.specular_atlas = true;
        self.specular_cubemap = true;
    }

    /// Takes the per-frame snapshot: the one copy from mutable control state
    /// into the immutable frame context, made before the stage graph runs.
    pub fn set_params(&mut self, p: AtmosphereParameters)
        ensures
            final(self).params_snapshot() == Some(p),
            forall|id: TextureId| final(self).has(id) == old(self).has(id),
    {
        self.params = Some(p);
    }

    /// Looks a texture up.  Absence means "skip this frame", never an error.
    pub fn get(&self, id: TextureId) -> (r: Option<TextureHandle>)
        ensures
            self.has(id) ==> (r matches Some(h) && h.id == id && h.desc == spec_texture_desc(id)),
            !self.has(id) ==> r is None,
    {
        let present = match id {
            TextureId::TransmittanceLut => self.transmittance_lut,
            TextureId::MultipleScatteringLut => self.multiple_scattering_lut,
            TextureId::SunTransmittanceLut => self.sun_transmittance_lut,
            TextureId::CloudVolume => self.cloud_volume,
            TextureId::Placeholder => self.placeholder,
            TextureId::DiffuseAtlas => self.diffuse_atlas,
            TextureId::DiffuseCubemap => self.diffuse_cubemap,
            TextureId::SpecularAtlas => self.specular_atlas,
            TextureId::SpecularCubemap => self.specular_cubemap,
        };
        if present {
            Some(TextureHandle { id, desc: texture_desc(id) })
        } else {
            None
        }
    }

    /// The current snapshot, if one has been taken.
    pub fn params(&self) -> (r: Option<AtmosphereParameters>)
        ensures
            r == self.params_snapshot(),
    {
        self.params
    }
}

} // verus!
