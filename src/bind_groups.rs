//! Binding layouts and bind groups: a layout is fixed when a pipeline is
//! created; a bind group fills its slots with the current resources and is
//! built anew every frame.

use vstd::prelude::*;

use crate::objects::ImageHandle;
use crate::render::BufferHandle;
use crate::stage::ShaderProgram;

verus! {

/// How a compute program may access a storage texture.
#[derive(Clone, Copy, Debug, PartialEq, Eq, Structural)]
pub enum TextureAccess {
    ReadOnly,
    WriteOnly,
}

/// What a binding slot holds. Every slot is visible to compute programs;
/// every texture is a two-dimensional RGBA8 texture.
#[derive(Clone, Copy, Debug, PartialEq, Eq, Structural)]
pub enum BindingKind {
    StorageBuffer { read_only: bool },
    UniformBuffer,
    StorageTexture { access: TextureAccess },
}

/// One slot of a binding layout. `min_size` is the least buffer size in
/// bytes, zero for textures.
#[derive(Clone, Copy, Debug, PartialEq, Eq, Structural)]
pub struct LayoutEntry {
    pub binding: u32,
    pub kind: BindingKind,
    pub min_size: u64,
}

/// The GPU view of an image, available once the host has uploaded it.
#[derive(Clone, Copy, Debug, PartialEq, Eq, Structural)]
pub struct TextureView {
    pub image: ImageHandle,
}

/// The resource bound to a slot.
#[derive(Clone, Copy, Debug, PartialEq, Eq, Structural)]
pub enum BoundResource {
    Buffer(BufferHandle),
    Texture(TextureView),
}

/// One slot of a bind group.
#[derive(Clone, Copy, Debug, PartialEq, Eq, Structural)]
pub struct BindGroupEntry {
    pub binding: u32,
    pub resource: BoundResource,
}

/// A resource that a bind group needs was not there.
#[derive(Clone, Copy, Debug, PartialEq, Eq, Structural)]
pub enum BindError {
    MissingParticleBuffer,
    MissingColourBuffer,
    MissingOutputImage,
    MissingWeightsImage,
}

/// A compute pipeline to compile: a label, the program's asset path and its
/// entry point.
#[derive(Clone, Copy, Debug)]
pub struct PipelineDescriptor {
    pub label: &'static str,
    pub shader: &'static str,
    pub program: ShaderProgram,
}

/// `resource` may fill a slot of kind `kind` with least size `min_size`.
pub open spec fn fits(kind: BindingKind, min_size: u64, resource: BoundResource) -> bool {
    match resource {
        BoundResource::Buffer(b) => !(kind is StorageTexture) && b.size >= min_size,
        BoundResource::Texture(_) => kind is StorageTexture,
    }
}

/// `entries` fill the slots of `layout`, one for one and in order.
pub open spec fn conforms(layout: Seq<LayoutEntry>, entries: Seq<BindGroupEntry>) -> bool {
    &&& layout.len() == entries.len()
    &&& forall|i: int|
        0 <= i < layout.len() ==> {
            &&& #[trigger] entries[i].binding == layout[i].binding
            &&& fits(layout[i].kind, layout[i].min_size, entries[i].resource)
        }
}

} // verus!
