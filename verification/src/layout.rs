//! Bind-group and vertex-buffer layouts: the slots the shaders read
//! from, pinned down entry by entry.
//!
//! Three bind groups exist: the material's textures, the camera uniform,
//! and the light uniform. Two vertex buffers feed the main pipeline: the
//! per-vertex records of the mesh and the per-instance model matrix,
//! spread over four attribute slots.

use vstd::prelude::*;
use crate::gpu::{
    vertex_format_size, BindingType, ShaderStages, VertexFormat, VertexStepMode,
};

verus! {

/// One slot of a bind-group layout.
#[derive(Clone, Copy, Debug, PartialEq, Eq, Structural)]
pub struct BindGroupLayoutEntry {
    pub binding: u32,
    pub visibility: ShaderStages,
    pub ty: BindingType,
}

/// A bind-group layout: its slots in ascending binding order.
#[derive(Clone, Debug)]
pub struct BindGroupLayoutDesc {
    pub entries: Vec<BindGroupLayoutEntry>,
}

impl BindGroupLayoutDesc {
    /// Binding numbers are strictly ascending, hence unique.
    pub open spec fn wf(self) -> bool {
        forall|i: int, j: int|
            0 <= i < j < self.entries.len() ==> self.entries[i].binding < self.entries[j].binding
    }
}

/// The shape of the material's bind group: a diffuse texture and its
/// sampler, then a normal texture and its sampler, all visible to the
/// fragment stage.
pub open spec fn is_material_texture_layout(l: BindGroupLayoutDesc) -> bool {
    &&& l.entries.len() == 4
    &&& l.entries[0] == (BindGroupLayoutEntry {
        binding: 0,
        visibility: ShaderStages { vertex: false, fragment: true },
        ty: BindingType::Texture2D,
    })
    &&& l.entries[1] == (BindGroupLayoutEntry {
        binding: 1,
        visibility: ShaderStages { vertex: false, fragment: true },
        ty: BindingType::SamplerFiltering,
    })
    &&& l.entries[2] == (BindGroupLayoutEntry {
        binding: 2,
        visibility: ShaderStages { vertex: false, fragment: true },
        ty: BindingType::Texture2D,
    })
    &&& l.entries[3] == (BindGroupLayoutEntry {
        binding: 3,
        visibility: ShaderStages { vertex: false, fragment: true },
        ty: BindingType::SamplerFiltering,
    })
}

/// The material's bind group: a diffuse texture and its sampler, then a
/// normal texture and its sampler, all visible to the fragment stage.
pub fn create_texture_bind_group_layout() -> (l: BindGroupLayoutDesc)
    ensures
        is_material_texture_layout(l),
        l.wf(),
{
    let fragment_only = ShaderStages { vertex: false, fragment: true };
    let mut entries: Vec<BindGroupLayoutEntry> = Vec::new();
    entries.push(BindGroupLayoutEntry { binding: 0, visibility: fragment_only, ty: BindingType::Texture2D });
    entries.push(BindGroupLayoutEntry { binding: 1, visibility: fragment_only, ty: BindingType::SamplerFiltering });
    entries.push(BindGroupLayoutEntry { binding: 2, visibility: fragment_only, ty: BindingType::Texture2D });
    entries.push(BindGroupLayoutEntry { binding: 3, visibility: fragment_only, ty: BindingType::SamplerFiltering });
    BindGroupLayoutDesc { entries }
}

/// The shape both uniform bind groups share: one uniform buffer at
/// binding 0, visible to both shader stages.
pub open spec fn is_single_uniform_layout(l: BindGroupLayoutDesc) -> bool {
    &&& l.entries.len() == 1
    &&& l.entries[0] == (BindGroupLayoutEntry {
        binding: 0,
        visibility: ShaderStages { vertex: true, fragment: true },
        ty: BindingType::UniformBuffer,
    })
}

/// The camera's bind group: one uniform buffer at binding 0, visible to
/// both shader stages.
pub fn create_camera_bind_group_layout() -> (l: BindGroupLayoutDesc)
    ensures
        is_single_uniform_layout(l),
        l.wf(),
{
    let mut entries: Vec<BindGroupLayoutEntry> = Vec::new();
    entries.push(BindGroupLayoutEntry {
        binding: 0,
        visibility: ShaderStages { vertex: true, fragment: true },
        ty: BindingType::UniformBuffer,
    });
    BindGroupLayoutDesc { entries }
}

/// The light's bind group: one uniform buffer at binding 0, visible to
/// both shader stages.
pub fn create_light_bind_group_layout() -> (l: BindGroupLayoutDesc)
    ensures
        is_single_uniform_layout(l),
        l.wf(),
{
    let mut entries: Vec<BindGroupLayoutEntry> = Vec::new();
    entries.push(BindGroupLayoutEntry {
        binding: 0,
        visibility: ShaderStages { vertex: true, fragment: true },
        ty: BindingType::UniformBuffer,
    });
    BindGroupLayoutDesc { entries }
}

/// One vertex attribute: where it starts in the record, which shader
/// slot it lands in, and its shape.
#[derive(Clone, Copy, Debug, PartialEq, Eq, Structural)]
pub struct VertexAttribute {
    pub offset: u64,
    pub shader_location: u32,
    pub format: VertexFormat,
}

/// The layout of one vertex buffer: the record's stride, whether it
/// advances per vertex or per instance, and its attributes.
#[derive(Clone, Debug)]
pub struct VertexBufferLayoutDesc {
    pub array_stride: u64,
    pub step_mode: VertexStepMode,
    pub attributes: Vec<VertexAttribute>,
}

impl VertexBufferLayoutDesc {
    /// Attributes sit in ascending offsets without overlap, stay inside
    /// the stride, and land in strictly ascending shader slots.
    pub open spec fn wf(self) -> bool {
        &&& forall|i: int|
            0 <= i < self.attributes.len() ==> (#[trigger] self.attributes[i]).offset
                + vertex_format_size(self.attributes[i].format) <= self.array_stride
        &&& forall|i: int, j: int|
            0 <= i < j < self.attributes.len() ==> (#[trigger] self.attributes[i]).offset
                + vertex_format_size(self.attributes[i].format)
                <= (#[trigger] self.attributes[j]).offset
        &&& forall|i: int, j: int|
            0 <= i < j < self.attributes.len() ==> (#[trigger] self.attributes[i]).shader_location
                < (#[trigger] self.attributes[j]).shader_location
    }

    /// The lowest shader slot this layout touches.
    pub open spec fn min_location(self) -> int {
        self.attributes[0].shader_location as int
    }

    /// The highest shader slot this layout touches.
    pub open spec fn max_location(self) -> int {
        self.attributes[self.attributes.len() - 1].shader_location as int
    }
}

/// The shape of the per-vertex layout: three floats of position, two of
/// texture coordinate and three of normal, packed into a 32-byte record
/// and landing in shader slots 0 to 2.
pub open spec fn is_model_vertex_layout(l: VertexBufferLayoutDesc) -> bool {
    &&& l.array_stride == 32
    &&& l.step_mode is Vertex
    &&& l.attributes.len() == 3
    &&& l.attributes[0] == (VertexAttribute { offset: 0, shader_location: 0, format: VertexFormat::Float32x3 })
    &&& l.attributes[1] == (VertexAttribute { offset: 12, shader_location: 1, format: VertexFormat::Float32x2 })
    &&& l.attributes[2] == (VertexAttribute { offset: 20, shader_location: 2, format: VertexFormat::Float32x3 })
}

/// The shape of the per-instance layout: the four 16-byte columns of
/// the model matrix in a 64-byte record, landing in shader slots 5 to 8.
pub open spec fn is_instance_raw_layout(l: VertexBufferLayoutDesc) -> bool {
    &&& l.array_stride == 64
    &&& l.step_mode is Instance
    &&& l.attributes.len() == 4
    &&& l.attributes[0] == (VertexAttribute { offset: 0, shader_location: 5, format: VertexFormat::Float32x4 })
    &&& l.attributes[1] == (VertexAttribute { offset: 16, shader_location: 6, format: VertexFormat::Float32x4 })
    &&& l.attributes[2] == (VertexAttribute { offset: 32, shader_location: 7, format: VertexFormat::Float32x4 })
    &&& l.attributes[3] == (VertexAttribute { offset: 48, shader_location: 8, format: VertexFormat::Float32x4 })
}

/// The per-vertex record of a mesh: position, texture coordinate and
/// normal, packed one after another in shader slots 0 to 2.
pub fn model_vertex_layout() -> (l: VertexBufferLayoutDesc)
    ensures
        is_model_vertex_layout(l),
        l.wf(),
{
    let mut attributes: Vec<VertexAttribute> = Vec::new();
    attributes.push(VertexAttribute { offset: 0, shader_location: 0, format: VertexFormat::Float32x3 });
    attributes.push(VertexAttribute { offset: 12, shader_location: 1, format: VertexFormat::Float32x2 });
    attributes.push(VertexAttribute { offset: 20, shader_location: 2, format: VertexFormat::Float32x3 });
    let l = VertexBufferLayoutDesc { array_stride: 32, step_mode: VertexStepMode::Vertex, attributes };
    proof {
        assert(l.attributes@ =~= seq![
            VertexAttribute { offset: 0, shader_location: 0, format: VertexFormat::Float32x3 },
            VertexAttribute { offset: 12, shader_location: 1, format: VertexFormat::Float32x2 },
            VertexAttribute { offset: 20, shader_location: 2, format: VertexFormat::Float32x3 },
        ]);
    }
    l
}

/// The per-instance record: the four columns of the instance's model
/// matrix, in shader slots 5 to 8 so they never collide with the
/// per-vertex slots.
pub fn instance_raw_layout() -> (l: VertexBufferLayoutDesc)
    ensures
        is_instance_raw_layout(l),
        l.wf(),
{
    let mut attributes: Vec<VertexAttribute> = Vec::new();
    attributes.push(VertexAttribute { offset: 0, shader_location: 5, format: VertexFormat::Float32x4 });
    attributes.push(VertexAttribute { offset: 16, shader_location: 6, format: VertexFormat::Float32x4 });
    attributes.push(VertexAttribute { offset: 32, shader_location: 7, format: VertexFormat::Float32x4 });
    attributes.push(VertexAttribute { offset: 48, shader_location: 8, format: VertexFormat::Float32x4 });
    let l = VertexBufferLayoutDesc { array_stride: 64, step_mode: VertexStepMode::Instance, attributes };
    proof {
        assert(l.attributes@ =~= seq![
            VertexAttribute { offset: 0, shader_location: 5, format: VertexFormat::Float32x4 },
            VertexAttribute { offset: 16, shader_location: 6, format: VertexFormat::Float32x4 },
            VertexAttribute { offset: 32, shader_location: 7, format: VertexFormat::Float32x4 },
            VertexAttribute { offset: 48, shader_location: 8, format: VertexFormat::Float32x4 },
        ]);
    }
    l
}

/// The two vertex buffers of the main pipeline never fight over a
/// shader slot: every per-vertex attribute sits strictly below every
/// per-instance attribute.
#[verifier::rlimit(50)]
pub proof fn lemma_vertex_layouts_disjoint(
    vertex: VertexBufferLayoutDesc,
    instance: VertexBufferLayoutDesc,
)
    requires
        vertex.wf(),
        instance.wf(),
        vertex.attributes.len() > 0,
        instance.attributes.len() > 0,
        vertex.max_location() < instance.min_location(),
    ensures
        forall|i: int, j: int|
            0 <= i < vertex.attributes.len() && 0 <= j < instance.attributes.len()
                ==> (#[trigger] vertex.attributes[i]).shader_location
                != (#[trigger] instance.attributes[j]).shader_location,
{
    assert forall|i: int, j: int|
        0 <= i < vertex.attributes.len() && 0 <= j < instance.attributes.len()
        implies (#[trigger] vertex.attributes[i]).shader_location
        != (#[trigger] instance.attributes[j]).shader_location by {
        if i < vertex.attributes.len() - 1 {
            assert(vertex.attributes[i].shader_location
                < vertex.attributes[vertex.attributes.len() - 1].shader_location);
        }
        if j > 0 {
            assert(instance.attributes[0].shader_location
                < instance.attributes[j].shader_location);
        }
    }
}

} // verus!
