//! The discrete GPU state the renderer chooses from.
//!
//! These enums name the texture formats, presentation modes, primitive
//! and depth settings, shader stages and binding kinds that the scene's
//! configuration and pipelines are stated over. The embedding maps them
//! one for one onto the graphics API's own types.

use vstd::prelude::*;

verus! {

/// The texture formats the renderer distinguishes. Surfaces offer some
/// list of formats; anything the scene does not single out arrives as
/// `Other`, carrying only whether it is an sRGB format.
#[derive(Clone, Copy, Debug, PartialEq, Eq, Structural)]
pub enum TextureFormat {
    Bgra8Unorm,
    Bgra8UnormSrgb,
    Rgba8Unorm,
    Rgba8UnormSrgb,
    Depth32Float,
    Other { srgb: bool },
}

/// Whether a format stores colour with the sRGB transfer curve.
pub open spec fn format_is_srgb(f: TextureFormat) -> bool {
    match f {
        TextureFormat::Bgra8UnormSrgb => true,
        TextureFormat::Rgba8UnormSrgb => true,
        TextureFormat::Other { srgb } => srgb,
        _ => false,
    }
}

impl TextureFormat {
    /// Whether this format stores colour with the sRGB transfer curve.
    pub fn is_srgb(&self) -> (r: bool)
        ensures
            r == format_is_srgb(*self),
    {
        match self {
            TextureFormat::Bgra8UnormSrgb => true,
            TextureFormat::Rgba8UnormSrgb => true,
            TextureFormat::Other { srgb } => *srgb,
            _ => false,
        }
    }
}

/// How presentation is paced.
#[derive(Clone, Copy, Debug, PartialEq, Eq, Structural)]
pub enum PresentMode {
    AutoVsync,
    AutoNoVsync,
    Fifo,
    FifoRelaxed,
    Immediate,
    Mailbox,
}

/// How the surface's alpha channel is composited with what lies behind
/// the window.
#[derive(Clone, Copy, Debug, PartialEq, Eq, Structural)]
pub enum AlphaMode {
    Auto,
    Opaque,
    PreMultiplied,
    PostMultiplied,
    Inherit,
}

/// What a texture may be used for. The surface and the depth texture are
/// only ever render attachments.
#[derive(Clone, Copy, Debug, PartialEq, Eq, Structural)]
pub enum TextureUsage {
    RenderAttachment,
    Other,
}

/// The shape of one vertex attribute.
#[derive(Clone, Copy, Debug, PartialEq, Eq, Structural)]
pub enum VertexFormat {
    Float32x2,
    Float32x3,
    Float32x4,
}

/// The byte width of a vertex attribute of the given format.
pub open spec fn vertex_format_size(f: VertexFormat) -> int {
    match f {
        VertexFormat::Float32x2 => 8,
        VertexFormat::Float32x3 => 12,
        VertexFormat::Float32x4 => 16,
    }
}

/// Whether a vertex buffer advances per vertex or per instance.
#[derive(Clone, Copy, Debug, PartialEq, Eq, Structural)]
pub enum VertexStepMode {
    Vertex,
    Instance,
}

/// How runs of vertices form primitives.
#[derive(Clone, Copy, Debug, PartialEq, Eq, Structural)]
pub enum PrimitiveTopology {
    PointList,
    LineList,
    LineStrip,
    TriangleList,
    TriangleStrip,
}

/// Which winding counts as the front of a triangle.
#[derive(Clone, Copy, Debug, PartialEq, Eq, Structural)]
pub enum FrontFace {
    Ccw,
    Cw,
}

/// Which side of a triangle is culled, if any.
#[derive(Clone, Copy, Debug, PartialEq, Eq, Structural)]
pub enum CullMode {
    Disabled,
    Front,
    Back,
}

/// The comparison a depth test applies.
#[derive(Clone, Copy, Debug, PartialEq, Eq, Structural)]
pub enum CompareFunction {
    Never,
    Less,
    Equal,
    LessEqual,
    Greater,
    NotEqual,
    GreaterEqual,
    Always,
}

/// How a fragment's output is blended with what the target holds.
#[derive(Clone, Copy, Debug, PartialEq, Eq, Structural)]
pub enum BlendComponent {
    Replace,
    Over,
}

/// Which shader stages see a binding.
#[derive(Clone, Copy, Debug, PartialEq, Eq, Structural)]
pub struct ShaderStages {
    pub vertex: bool,
    pub fragment: bool,
}

/// What sits behind a binding slot.
#[derive(Clone, Copy, Debug, PartialEq, Eq, Structural)]
pub enum BindingType {
    /// A uniform buffer without dynamic offset or minimum size.
    UniformBuffer,
    /// A filterable two-dimensional float texture.
    Texture2D,
    /// A filtering sampler.
    SamplerFiltering,
}

} // verus!
