use vstd::prelude::*;
use crate::command::{Command, TRIANGLE_VERTICES};
use crate::context::{GraphicsContext, InitError};
use crate::format::TextureFormat;
use crate::frame::{render_commands, render_result, rendered, FrameRenderer, RenderOutcome};
use crate::geometry::{
    big_endian_bytes, lemma_triangle_words, little_endian_bytes, triangle, triangle_words,
    GeometryBuffer,
};
use crate::pipeline::{RenderPipeline, RenderPipelineDescriptor, ShaderModule};
use crate::surface::{AcquireStatus, SurfaceManager, SurfaceModel, SurfaceSize};

verus! {

/// The format of the depth attachment.
pub open spec fn depth_format() -> TextureFormat {
    TextureFormat::Depth24PlusStencil8
}

/// Everything that a frame is rendered with: the surface and its depth
/// attachment, the pipeline and the geometry. It exists only fully set up, with
/// the surface configured.
pub struct State {
    manager: SurfaceManager,
    pipeline: RenderPipeline,
    geometry: GeometryBuffer,
}

impl State {
    /// The invariant of the rendering state: the surface is configured, the
    /// buffer holds the triangle, and the pipeline writes the depth format of
    /// the surface's depth attachment.
    pub closed spec fn wf(&self) -> bool {
        &&& self.manager@.wf()
        &&& self.manager@.stage is Configured
        &&& self.geometry.count() == TRIANGLE_VERTICES
        &&& self.pipeline.described().depth_stencil.format == self.manager@.depth_format
    }

    /// The state of the surface.
    pub closed spec fn surface(&self) -> SurfaceModel {
        self.manager@
    }

    /// The description of the pipeline.
    pub closed spec fn pipeline_description(&self) -> RenderPipelineDescriptor {
        self.pipeline.described()
    }

    /// The bytes of the vertex buffer.
    pub closed spec fn geometry_bytes(&self) -> Seq<u8> {
        self.geometry.bytes()
    }

    /// The error that setting up ends in, if any: a malformed shading program
    /// first; then a surface that reports no format, or whose preferred format
    /// cannot be a color target.
    pub open spec fn setup_error(shader: ShaderModule, supported: Seq<TextureFormat>) -> Option<
        InitError,
    > {
        if shader is Malformed {
            Some(InitError::ShaderCompilationError)
        } else if supported.len() == 0 {
            Some(InitError::UnsupportedTargetFormat)
        } else {
            RenderPipeline::build_error(shader, supported[0], depth_format())
        }
    }

    /// What setting up asks of the GPU: the pipeline, the vertex buffer, then
    /// the first configuration of the surface with its depth attachment.
    pub open spec fn setup_commands(supported: Seq<TextureFormat>, window_size: SurfaceSize) -> Seq<
        Command,
    >
        recommends
            supported.len() > 0,
    {
        seq![Command::CreatePipeline, Command::CreateVertexBuffer] + SurfaceModel::fresh(
            supported,
            depth_format(),
        ).configure_commands(window_size, supported[0])
    }

    /// Sets everything up once device and queue are there: the pipeline for the
    /// format that the surface prefers, the triangle uploaded, the surface
    /// configured at the size of the window.
    pub fn new(
        context: &GraphicsContext,
        shader: ShaderModule,
        supported: Vec<TextureFormat>,
        window_size: SurfaceSize,
    ) -> (created: Result<(State, Vec<Command>), InitError>)
        requires
            context.progress() is Ready,
            window_size.is_drawable(),
        ensures
            match created {
                Ok((state, commands)) => {
                    &&& Self::setup_error(shader, supported@) is None
                    &&& state.surface() == SurfaceModel::fresh(supported@, depth_format()).configured(
                        window_size,
                        supported@[0],
                    )
                    &&& state.wf()
                    &&& state.pipeline_description().is_fixed(supported@[0], depth_format())
                    &&& (state.geometry_bytes() == little_endian_bytes(triangle_words())
                        || state.geometry_bytes() == big_endian_bytes(triangle_words()))
                    &&& commands@ == Self::setup_commands(supported@, window_size)
                },
                Err(error) => Self::setup_error(shader, supported@) == Some(error),
            },
    {
        match shader {
            ShaderModule::Malformed => {
                return Err(InitError::ShaderCompilationError);
            },
            ShaderModule::Compiled => {},
        }
        if supported.len() == 0 {
            return Err(InitError::UnsupportedTargetFormat);
        }
        let format = supported[0];
        let pipeline = match RenderPipeline::build(shader, format, TextureFormat::Depth24PlusStencil8) {
            Ok(pipeline) => pipeline,
            Err(error) => {
                return Err(error);
            },
        };
        let vertices = triangle();
        proof {
            lemma_triangle_words(vertices@);
        }
        let geometry = GeometryBuffer::upload(&vertices);
        let ghost reported = supported@;
        let mut manager = SurfaceManager::new(supported, TextureFormat::Depth24PlusStencil8);
        assert(reported[0] == format);
        let configure = manager.configure(window_size, format);
        let mut commands: Vec<Command> = Vec::new();
        commands.push(Command::CreatePipeline);
        commands.push(Command::CreateVertexBuffer);
        commands.push(configure[0]);
        commands.push(configure[1]);
        assert(commands@ =~= Self::setup_commands(reported, window_size));
        Ok((State { manager, pipeline, geometry }, commands))
    }

    /// Configures the surface anew at its current size and format.
    pub fn configure_surface(&mut self) -> (commands: Vec<Command>)
        requires
            old(self).wf(),
        ensures
            final(self).wf(),
            final(self).surface() == old(self).surface().configured(
                old(self).surface().size(),
                old(self).surface().format(),
            ),
            commands@ == old(self).surface().configure_commands(
                old(self).surface().size(),
                old(self).surface().format(),
            ),
            final(self).pipeline_description() == old(self).pipeline_description(),
            final(self).geometry_bytes() == old(self).geometry_bytes(),
    {
        self.manager.reconfigure()
    }

    /// Follows the window to a new size. A resize to the current size does nothing.
    pub fn resize(&mut self, new_size: SurfaceSize) -> (commands: Vec<Command>)
        requires
            old(self).wf(),
            new_size.is_drawable(),
        ensures
            final(self).wf(),
            final(self).surface() == old(self).surface().resized(new_size),
            commands@ == old(self).surface().resize_commands(new_size),
            final(self).pipeline_description() == old(self).pipeline_description(),
            final(self).geometry_bytes() == old(self).geometry_bytes(),
    {
        self.manager.resize(new_size)
    }

    /// Renders one frame, given the driver's answer to the request for the next image.
    pub fn render(&mut self, status: AcquireStatus) -> (outcome: RenderOutcome)
        requires
            old(self).wf(),
        ensures
            final(self).wf(),
            final(self).surface() == rendered(old(self).surface(), status),
            outcome.result == render_result(old(self).surface(), status),
            outcome.commands@ == render_commands(old(self).surface(), status),
            final(self).pipeline_description() == old(self).pipeline_description(),
            final(self).geometry_bytes() == old(self).geometry_bytes(),
    {
        FrameRenderer::render(&mut self.manager, &self.pipeline, &self.geometry, status)
    }

    pub fn manager(&self) -> (manager: &SurfaceManager)
        ensures
            manager@ == self.surface(),
    {
        &self.manager
    }

    pub fn pipeline(&self) -> (pipeline: &RenderPipeline)
        ensures
            pipeline.described() == self.pipeline_description(),
    {
        &self.pipeline
    }

    pub fn geometry(&self) -> (geometry: &GeometryBuffer)
        ensures
            geometry.bytes() == self.geometry_bytes(),
            self.wf() ==> geometry.count() == TRIANGLE_VERTICES,
    {
        &self.geometry
    }

    /// What holds of the surface of every well-formed state.
    pub proof fn lemma_surface_configured(&self)
        requires
            self.wf(),
        ensures
            self.surface().wf(),
            self.surface().stage is Configured,
            self.surface().depth_format == self.pipeline_description().depth_stencil.format,
    {
    }
}

} // verus!
