//! Render-pipeline composition.
//!
//! One configurable builder assembles every pipeline of the scene from
//! an explicit configuration — vertex layouts, shader, colour format,
//! optional depth format — and pins all the fixed state both pipelines
//! share: triangle lists wound counter-clockwise, back faces culled,
//! replace blending on all channels, depth writes with a less-than test,
//! and no multisampling.

use vstd::prelude::*;
use crate::gpu::{
    BlendComponent, CompareFunction, CullMode, FrontFace, PrimitiveTopology, TextureFormat,
};
use crate::layout::{
    create_camera_bind_group_layout, create_light_bind_group_layout, is_model_vertex_layout,
    is_single_uniform_layout, model_vertex_layout, BindGroupLayoutDesc, VertexBufferLayoutDesc,
};

verus! {

/// The two shader artifacts of the scene. Their text is opaque; each
/// must expose a vertex entry point `vs_main` and a fragment entry point
/// `fs_main`, reading the attribute slots the vertex layouts declare.
#[derive(Clone, Copy, Debug, PartialEq, Eq, Structural)]
pub enum ShaderKind {
    /// Textured, lit, instanced geometry.
    Main,
    /// The flat-coloured marker mesh drawn at the light's position.
    Light,
}

/// The bind groups a pipeline reads, in group order.
#[derive(Debug)]
pub struct PipelineLayoutDesc {
    pub bind_group_layouts: Vec<BindGroupLayoutDesc>,
}

/// The depth-stencil half of a pipeline: a fixed format, depth writes
/// enabled, a less-than comparison, and no stencil or bias.
#[derive(Clone, Copy, Debug, PartialEq, Eq, Structural)]
pub struct DepthStencilDesc {
    pub format: TextureFormat,
    pub depth_write_enabled: bool,
    pub depth_compare: CompareFunction,
}

/// What varies between the scene's pipelines.
#[derive(Debug)]
pub struct PipelineConfig {
    pub shader: ShaderKind,
    pub color_format: TextureFormat,
    pub depth_format: Option<TextureFormat>,
    pub vertex_layouts: Vec<VertexBufferLayoutDesc>,
}

/// A fully determined render pipeline.
#[derive(Debug)]
pub struct RenderPipelineDesc {
    pub layout: PipelineLayoutDesc,
    pub shader: ShaderKind,
    pub color_format: TextureFormat,
    pub blend_color: BlendComponent,
    pub blend_alpha: BlendComponent,
    pub write_mask_all: bool,
    pub topology: PrimitiveTopology,
    pub front_face: FrontFace,
    pub cull_mode: CullMode,
    pub depth_stencil: Option<DepthStencilDesc>,
    pub vertex_layouts: Vec<VertexBufferLayoutDesc>,
    pub sample_count: u32,
    pub alpha_to_coverage_enabled: bool,
}

/// The fixed state every pipeline of this renderer is built with.
pub open spec fn fixed_pipeline_state(p: RenderPipelineDesc) -> bool {
    &&& p.blend_color is Replace
    &&& p.blend_alpha is Replace
    &&& p.write_mask_all
    &&& p.topology is TriangleList
    &&& p.front_face is Ccw
    &&& p.cull_mode is Back
    &&& p.sample_count == 1
    &&& !p.alpha_to_coverage_enabled
}

/// Builds a pipeline from its layout and configuration. Everything not
/// named by the configuration is the scene's fixed state; a depth format
/// turns into depth writes compared with less-than, and no depth format
/// into no depth testing at all.
pub fn create_render_pipeline(layout: PipelineLayoutDesc, config: PipelineConfig) -> (p:
    RenderPipelineDesc)
    ensures
        p.layout == layout,
        p.shader == config.shader,
        p.color_format == config.color_format,
        p.vertex_layouts == config.vertex_layouts,
        fixed_pipeline_state(p),
        config.depth_format matches Some(f) ==> p.depth_stencil == Some(DepthStencilDesc {
            format: f,
            depth_write_enabled: true,
            depth_compare: CompareFunction::Less,
        }),
        config.depth_format is None ==> p.depth_stencil is None,
{
    let depth_stencil = match config.depth_format {
        Some(format) => Some(
            DepthStencilDesc {
                format,
                depth_write_enabled: true,
                depth_compare: CompareFunction::Less,
            },
        ),
        None => None,
    };
    RenderPipelineDesc {
        layout,
        shader: config.shader,
        color_format: config.color_format,
        blend_color: BlendComponent::Replace,
        blend_alpha: BlendComponent::Replace,
        write_mask_all: true,
        topology: PrimitiveTopology::TriangleList,
        front_face: FrontFace::Ccw,
        cull_mode: CullMode::Back,
        depth_stencil,
        vertex_layouts: config.vertex_layouts,
        sample_count: 1,
        alpha_to_coverage_enabled: false,
    }
}

/// The main pipeline's bind groups, in group order: the material's
/// textures, the camera, the light.
pub fn create_render_pipeline_layout(
    texture_layout: BindGroupLayoutDesc,
    camera_layout: BindGroupLayoutDesc,
    light_layout: BindGroupLayoutDesc,
) -> (l: PipelineLayoutDesc)
    ensures
        l.bind_group_layouts.len() == 3,
        l.bind_group_layouts[0] == texture_layout,
        l.bind_group_layouts[1] == camera_layout,
        l.bind_group_layouts[2] == light_layout,
{
    let mut bind_group_layouts: Vec<BindGroupLayoutDesc> = Vec::new();
    bind_group_layouts.push(texture_layout);
    bind_group_layouts.push(camera_layout);
    bind_group_layouts.push(light_layout);
    PipelineLayoutDesc { bind_group_layouts }
}

/// The pipeline drawing the light's marker mesh: camera and light bind
/// groups only, the light shader, the mesh's per-vertex layout alone,
/// and the same depth test as the main pipeline.
pub fn create_light_render_pipeline(color_format: TextureFormat, depth_format: TextureFormat)
    -> (p: RenderPipelineDesc)
    ensures
        p.layout.bind_group_layouts.len() == 2,
        is_single_uniform_layout(p.layout.bind_group_layouts[0]),
        is_single_uniform_layout(p.layout.bind_group_layouts[1]),
        p.shader is Light,
        p.color_format == color_format,
        p.vertex_layouts.len() == 1,
        is_model_vertex_layout(p.vertex_layouts[0]),
        p.depth_stencil == Some(DepthStencilDesc {
            format: depth_format,
            depth_write_enabled: true,
            depth_compare: CompareFunction::Less,
        }),
        fixed_pipeline_state(p),
{
    let camera_layout = create_camera_bind_group_layout();
    let light_layout = create_light_bind_group_layout();
    let mut bind_group_layouts: Vec<BindGroupLayoutDesc> = Vec::new();
    bind_group_layouts.push(camera_layout);
    bind_group_layouts.push(light_layout);
    let layout = PipelineLayoutDesc { bind_group_layouts };
    let mut vertex_layouts: Vec<VertexBufferLayoutDesc> = Vec::new();
    vertex_layouts.push(model_vertex_layout());
    create_render_pipeline(
        layout,
        PipelineConfig {
            shader: ShaderKind::Light,
            color_format,
            depth_format: Some(depth_format),
            vertex_layouts,
        },
    )
}

} // verus!
