use vstd::prelude::*;
use crate::config::FormatId;

verus! {

/// An entry point of the fixed shader module. The platform layer maps
/// `Vertex` to the module's vertex entry (named `vs_main` in the shader
/// source) and `Fragment` to its fragment entry (`fs_main`).
#[derive(Clone, Copy, Debug, PartialEq, Eq, Structural)]
pub enum ShaderEntry {
    Vertex,
    Fragment,
}

/// How consecutive vertices are assembled into primitives.
#[derive(Clone, Copy, Debug, PartialEq, Eq, Structural)]
pub enum Topology {
    PointList,
    LineList,
    LineStrip,
    TriangleList,
    TriangleStrip,
}

/// Which winding order counts as the front of a triangle.
#[derive(Clone, Copy, Debug, PartialEq, Eq, Structural)]
pub enum FrontFace {
    Ccw,
    Cw,
}

/// Which faces are culled before rasterization; culling is off when no
/// face is named.
#[derive(Clone, Copy, Debug, PartialEq, Eq, Structural)]
pub enum CullFace {
    Front,
    Back,
}

/// How the fragment output is combined with the color target. `Replace`
/// writes the fragment's color as-is.
#[derive(Clone, Copy, Debug, PartialEq, Eq, Structural)]
pub enum BlendMode {
    Replace,
    AlphaBlending,
}

/// The description of the one render pipeline the application compiles:
/// which shader entry points it runs, how primitives are assembled and
/// culled, what color target it writes and how, and its sampling.
///
/// The context manager builds exactly one such description per context,
/// varying only in `target_format`, which always equals the format of the
/// surface configuration the context holds.
#[derive(Clone, Copy, Debug, PartialEq, Eq, Structural)]
pub struct PipelineDesc {
    /// Entry point of the vertex stage.
    pub vertex_entry: ShaderEntry,
    /// Entry point of the fragment stage.
    pub fragment_entry: ShaderEntry,
    /// Number of vertex buffer layouts; the vertex shader synthesizes its
    /// vertices from the vertex index alone, so this is zero.
    pub vertex_buffer_count: u32,
    /// Format of the single color target.
    pub target_format: FormatId,
    pub blend: BlendMode,
    pub topology: Topology,
    pub front_face: FrontFace,
    pub cull_mode: Option<CullFace>,
    /// Whether a depth/stencil attachment is used; the quad needs none.
    pub has_depth_stencil: bool,
    /// Samples per pixel; no multisampling.
    pub sample_count: u32,
}

/// The fixed pipeline description for a surface of format `format`:
/// `vs_main`/`fs_main` entry points, no vertex buffers, triangle-list
/// topology, back-face culling with counter-clockwise front faces,
/// replace blending into one target of the given format, no
/// depth/stencil, one sample.
pub open spec fn main_pipeline(format: FormatId) -> PipelineDesc {
    PipelineDesc {
        vertex_entry: ShaderEntry::Vertex,
        fragment_entry: ShaderEntry::Fragment,
        vertex_buffer_count: 0,
        target_format: format,
        blend: BlendMode::Replace,
        topology: Topology::TriangleList,
        front_face: FrontFace::Ccw,
        cull_mode: Some(CullFace::Back),
        has_depth_stencil: false,
        sample_count: 1,
    }
}

impl PipelineDesc {
    /// Build the fixed pipeline description for a surface of format
    /// `format`.
    pub fn for_format(format: FormatId) -> (d: PipelineDesc)
        ensures
            d == main_pipeline(format),
    {
        PipelineDesc {
            vertex_entry: ShaderEntry::Vertex,
            fragment_entry: ShaderEntry::Fragment,
            vertex_buffer_count: 0,
            target_format: format,
            blend: BlendMode::Replace,
            topology: Topology::TriangleList,
            front_face: FrontFace::Ccw,
            cull_mode: Some(CullFace::Back),
            has_depth_stencil: false,
            sample_count: 1,
        }
    }
}

} // verus!
