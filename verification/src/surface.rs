//! Surface configuration: picking a format from what the adapter
//! offers, sizing the surface, and keeping the depth texture in step.

use vstd::prelude::*;
use crate::gpu::{
    format_is_srgb, AlphaMode, PresentMode, TextureFormat, TextureUsage,
};

verus! {

/// What the adapter reports the surface can do. Every list is non-empty
/// for a surface the adapter supports at all, and the scene indexes the
/// first entries, so emptiness is ruled out up front.
#[derive(Clone, Debug)]
pub struct SurfaceCaps {
    pub formats: Vec<TextureFormat>,
    pub present_modes: Vec<PresentMode>,
    pub alpha_modes: Vec<AlphaMode>,
}

impl SurfaceCaps {
    pub open spec fn wf(self) -> bool {
        &&& self.formats.len() > 0
        &&& self.present_modes.len() > 0
        &&& self.alpha_modes.len() > 0
    }
}

/// The format the scene renders in, given the offered list read from
/// position `i` on: the first sRGB entry, or, when none is sRGB, the
/// list's head.
pub open spec fn preferred_format_from(formats: Seq<TextureFormat>, i: int) -> TextureFormat
    decreases formats.len() - i,
{
    if i < 0 || i >= formats.len() {
        formats[0]
    } else if format_is_srgb(formats[i]) {
        formats[i]
    } else {
        preferred_format_from(formats, i + 1)
    }
}

/// The format the scene renders in: the first sRGB format the surface
/// offers, or the first offered format when none is sRGB.
pub open spec fn preferred_format(formats: Seq<TextureFormat>) -> TextureFormat {
    preferred_format_from(formats, 0)
}

/// What the preferred format guarantees: it is always one of the
/// offered formats; it is sRGB whenever any offered format is; and when
/// none is, it is the head of the list.
pub proof fn lemma_preferred_format_properties(formats: Seq<TextureFormat>)
    requires
        formats.len() > 0,
    ensures
        formats.contains(preferred_format(formats)),
        (exists|i: int| 0 <= i < formats.len() && format_is_srgb(formats[i]))
            ==> format_is_srgb(preferred_format(formats)),
        (forall|i: int| 0 <= i < formats.len() ==> !format_is_srgb(formats[i]))
            ==> preferred_format(formats) == formats[0],
{
    lemma_preferred_format_from_properties(formats, 0);
}

/// The same guarantees for the suffix read from position `i` on.
proof fn lemma_preferred_format_from_properties(formats: Seq<TextureFormat>, i: int)
    requires
        formats.len() > 0,
        0 <= i,
    ensures
        formats.contains(preferred_format_from(formats, i)),
        (exists|j: int| i <= j < formats.len() && format_is_srgb(formats[j]))
            ==> format_is_srgb(preferred_format_from(formats, i)),
        (forall|j: int| i <= j < formats.len() ==> !format_is_srgb(formats[j]))
            ==> preferred_format_from(formats, i) == formats[0],
    decreases formats.len() - i,
{
    if i >= formats.len() {
        assert(formats.contains(formats[0]));
    } else if format_is_srgb(formats[i]) {
        assert(formats.contains(formats[i]));
    } else {
        lemma_preferred_format_from_properties(formats, i + 1);
    }
}

/// Picks the render format from the offered list: the shaders assume an
/// sRGB target, so the first sRGB entry wins; failing that, the first
/// entry of the list.
pub fn create_surface_format(formats: &Vec<TextureFormat>) -> (f: TextureFormat)
    requires
        formats.len() > 0,
    ensures
        f == preferred_format(formats@),
{
    let n = formats.len();
    let mut i: usize = 0;
    while i < n
        invariant
            0 <= i <= n,
            n == formats.len() > 0,
            preferred_format(formats@) == preferred_format_from(formats@, i as int),
        decreases n - i,
    {
        if formats[i].is_srgb() {
            return formats[i];
        }
        i = i + 1;
    }
    formats[0]
}

/// How the surface is configured: always a plain render attachment, in
/// the preferred format, at the window's pixel size, with the first
/// presentation and alpha modes the adapter offered.
#[derive(Clone, Copy, Debug, PartialEq, Eq, Structural)]
pub struct SurfaceConfig {
    pub usage: TextureUsage,
    pub format: TextureFormat,
    pub width: u32,
    pub height: u32,
    pub present_mode: PresentMode,
    pub alpha_mode: AlphaMode,
}

impl SurfaceConfig {
    /// A usable configuration never has a degenerate area and is only a
    /// render attachment.
    pub open spec fn wf(self) -> bool {
        &&& self.width > 0
        &&& self.height > 0
        &&& self.usage is RenderAttachment
    }
}

/// Builds the surface configuration for a window of the given pixel
/// size from what the adapter offers.
pub fn create_surface_config(width: u32, height: u32, caps: &SurfaceCaps) -> (c: SurfaceConfig)
    requires
        caps.wf(),
        width > 0,
        height > 0,
    ensures
        c.usage is RenderAttachment,
        c.format == preferred_format(caps.formats@),
        c.width == width,
        c.height == height,
        c.present_mode == caps.present_modes[0],
        c.alpha_mode == caps.alpha_modes[0],
        c.wf(),
{
    SurfaceConfig {
        usage: TextureUsage::RenderAttachment,
        format: create_surface_format(&caps.formats),
        width,
        height,
        present_mode: caps.present_modes[0],
        alpha_mode: caps.alpha_modes[0],
    }
}

/// The depth attachment's description. Its dimensions must always match
/// the surface's, and its format is fixed.
#[derive(Clone, Copy, Debug, PartialEq, Eq, Structural)]
pub struct DepthTextureDesc {
    pub width: u32,
    pub height: u32,
    pub format: TextureFormat,
}

/// The format every depth texture of this renderer uses.
pub open spec fn depth_format() -> TextureFormat {
    TextureFormat::Depth32Float
}

/// Describes a fresh depth texture matching the surface configuration.
pub fn create_depth_texture(config: &SurfaceConfig) -> (d: DepthTextureDesc)
    ensures
        d.width == config.width,
        d.height == config.height,
        d.format == depth_format(),
{
    DepthTextureDesc { width: config.width, height: config.height, format: TextureFormat::Depth32Float }
}

} // verus!
