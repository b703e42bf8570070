use vstd::prelude::*;
use crate::context::InitError;
use crate::format::TextureFormat;
use crate::geometry::{VertexBufferLayout, VertexInput, VertexStepMode};

verus! {

/// Every channel of a color target may be written.
pub const COLOR_WRITES_ALL: u32 = 0xF;

/// How vertices are assembled into primitives.
#[derive(Clone, Copy, Debug, PartialEq, Eq, Hash, Structural)]
pub enum PrimitiveTopology {
    PointList,
    LineList,
    LineStrip,
    TriangleList,
    TriangleStrip,
}

/// A side of a triangle.
#[derive(Clone, Copy, Debug, PartialEq, Eq, Hash, Structural)]
pub enum Face {
    Front,
    Back,
}

/// The comparison of a depth test.
#[derive(Clone, Copy, Debug, PartialEq, Eq, Hash, Structural)]
pub enum CompareFunction {
    Never,
    Less,
    Equal,
    LessEqual,
    Greater,
    NotEqual,
    GreaterEqual,
    Always,
}

/// How primitives are assembled and which of them are dropped.
#[derive(Clone, Copy, Debug, PartialEq, Eq, Hash, Structural)]
pub struct PrimitiveState {
    pub topology: PrimitiveTopology,
    /// The side of each triangle that is not drawn, if any.
    pub cull_mode: Option<Face>,
    pub unclipped_depth: bool,
    pub conservative: bool,
}

/// How many samples a pixel has and which of them are written.
#[derive(Clone, Copy, Debug, PartialEq, Eq, Hash, Structural)]
pub struct MultisampleState {
    pub count: u32,
    pub mask: u64,
    pub alpha_to_coverage_enabled: bool,
}

/// The depth test of a pipeline. The stencil test is left at its no-op.
#[derive(Clone, Copy, Debug, PartialEq, Eq, Hash, Structural)]
pub struct DepthStencilState {
    pub format: TextureFormat,
    pub depth_write_enabled: bool,
    pub depth_compare: CompareFunction,
    pub stencil_enabled: bool,
}

/// The color target of a pipeline.
#[derive(Clone, Copy, Debug, PartialEq, Eq, Hash, Structural)]
pub struct ColorTargetState {
    pub format: TextureFormat,
    /// Whether fragments are blended with what the target holds.
    pub blend_enabled: bool,
    pub write_mask: u32,
}

/// What the compiler of the shading program reported.
#[derive(Clone, Copy, Debug, PartialEq, Eq, Hash, Structural)]
pub enum ShaderModule {
    /// The program compiled: it has a vertex and a fragment stage.
    Compiled,
    Malformed,
}

/// The complete description that a render pipeline is compiled from.
#[derive(Debug, PartialEq, Eq)]
pub struct RenderPipelineDescriptor {
    pub vertex_buffer: VertexBufferLayout,
    pub primitive: PrimitiveState,
    pub depth_stencil: DepthStencilState,
    pub multisample: MultisampleState,
    pub target: ColorTargetState,
}

impl RenderPipelineDescriptor {
    /// The one pipeline of the scaffold for the given target formats: interleaved
    /// position and color at 32 bytes per vertex, a triangle list without culling,
    /// a depth test that passes the nearer fragment and writes it, no stencil test,
    /// one sample per pixel and no blending.
    pub open spec fn is_fixed(self, color_format: TextureFormat, depth_format: TextureFormat) -> bool {
        &&& self.vertex_buffer.array_stride == 32
        &&& self.vertex_buffer.step_mode == VertexStepMode::Vertex
        &&& self.vertex_buffer.attributes@ == VertexInput::attributes()
        &&& self.primitive == PrimitiveState {
            topology: PrimitiveTopology::TriangleList,
            cull_mode: None,
            unclipped_depth: false,
            conservative: false,
        }
        &&& self.depth_stencil == DepthStencilState {
            format: depth_format,
            depth_write_enabled: true,
            depth_compare: CompareFunction::Less,
            stencil_enabled: false,
        }
        &&& self.multisample == MultisampleState {
            count: 1,
            mask: u64::MAX,
            alpha_to_coverage_enabled: false,
        }
        &&& self.target == ColorTargetState {
            format: color_format,
            blend_enabled: false,
            write_mask: COLOR_WRITES_ALL,
        }
    }
}

/// The primitive state that `wgpu::PrimitiveState::default()` gives: a triangle
/// list, no culling, depth clipped, no conservative rasterization.
#[verifier::external_body]
fn default_primitive() -> (state: PrimitiveState)
    ensures
        state == (PrimitiveState {
            topology: PrimitiveTopology::TriangleList,
            cull_mode: None,
            unclipped_depth: false,
            conservative: false,
        }),
{
    let outside = wgpu::PrimitiveState::default();
    let topology = match outside.topology {
        wgpu::PrimitiveTopology::PointList => PrimitiveTopology::PointList,
        wgpu::PrimitiveTopology::LineList => PrimitiveTopology::LineList,
        wgpu::PrimitiveTopology::LineStrip => PrimitiveTopology::LineStrip,
        wgpu::PrimitiveTopology::TriangleList => PrimitiveTopology::TriangleList,
        wgpu::PrimitiveTopology::TriangleStrip => PrimitiveTopology::TriangleStrip,
    };
    let cull_mode = match outside.cull_mode {
        None => None,
        Some(wgpu::Face::Front) => Some(Face::Front),
        Some(wgpu::Face::Back) => Some(Face::Back),
    };
    PrimitiveState { topology, cull_mode, unclipped_depth: outside.unclipped_depth, conservative: outside.conservative }
}

/// The multisample state that `wgpu::MultisampleState::default()` gives: one
/// sample per pixel, every sample enabled, no alpha to coverage.
#[verifier::external_body]
fn default_multisample() -> (state: MultisampleState)
    ensures
        state == (MultisampleState { count: 1, mask: u64::MAX, alpha_to_coverage_enabled: false }),
{
    let outside = wgpu::MultisampleState::default();
    MultisampleState {
        count: outside.count,
        mask: outside.mask,
        alpha_to_coverage_enabled: outside.alpha_to_coverage_enabled,
    }
}

/// The immutable description of how the triangle is rasterized.
#[derive(Debug, PartialEq, Eq)]
pub struct RenderPipeline {
    descriptor: RenderPipelineDescriptor,
}

impl RenderPipeline {
    pub closed spec fn described(&self) -> RenderPipelineDescriptor {
        self.descriptor
    }

    /// The error that building a pipeline ends in, if any: a malformed shading
    /// program first, then formats that are not a color and a depth format.
    pub open spec fn build_error(
        shader: ShaderModule,
        color_format: TextureFormat,
        depth_format: TextureFormat,
    ) -> Option<InitError> {
        if shader is Malformed {
            Some(InitError::ShaderCompilationError)
        } else if !color_format.carries_color() || !depth_format.carries_depth() {
            Some(InitError::UnsupportedTargetFormat)
        } else {
            None
        }
    }

    /// Builds the pipeline for a compiled shading program and the formats of its targets.
    pub fn build(shader: ShaderModule, color_format: TextureFormat, depth_format: TextureFormat) -> (built:
        Result<RenderPipeline, InitError>)
        ensures
            match built {
                Ok(pipeline) => Self::build_error(shader, color_format, depth_format) is None
                    && pipeline.described().is_fixed(color_format, depth_format),
                Err(error) => Self::build_error(shader, color_format, depth_format) == Some(error),
            },
    {
        match shader {
            ShaderModule::Malformed => {
                return Err(InitError::ShaderCompilationError);
            },
            ShaderModule::Compiled => {},
        }
        if !color_format.is_color() || !depth_format.is_depth() {
            return Err(InitError::UnsupportedTargetFormat);
        }
        let descriptor = RenderPipelineDescriptor {
            vertex_buffer: VertexInput::desc(),
            primitive: default_primitive(),
            depth_stencil: DepthStencilState {
                format: depth_format,
                depth_write_enabled: true,
                depth_compare: CompareFunction::Less,
                stencil_enabled: false,
            },
            multisample: default_multisample(),
            target: ColorTargetState {
                format: color_format,
                blend_enabled: false,
                write_mask: COLOR_WRITES_ALL,
            },
        };
        Ok(RenderPipeline { descriptor })
    }

    pub fn descriptor(&self) -> (descriptor: &RenderPipelineDescriptor)
        ensures
            *descriptor == self.described(),
    {
        &self.descriptor
    }

    pub fn color_format(&self) -> (format: TextureFormat)
        ensures
            format == self.described().target.format,
    {
        self.descriptor.target.format
    }

    pub fn depth_format(&self) -> (format: TextureFormat)
        ensures
            format == self.described().depth_stencil.format,
    {
        self.descriptor.depth_stencil.format
    }
}

} // verus!
