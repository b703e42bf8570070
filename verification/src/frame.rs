use vstd::prelude::*;
use crate::command::{
    draw_count, lemma_counts_push, present_count, submit_count, ClearColor, Command,
    RenderPassDescriptor, CLEAR_GRAY_BITS, FAR_DEPTH_BITS, OPAQUE_ALPHA_BITS, TRIANGLE_VERTICES,
};
use crate::geometry::GeometryBuffer;
use crate::pipeline::RenderPipeline;
use crate::surface::{
    AcquireStatus, DepthAttachment, Frame, SurfaceError, SurfaceManager, SurfaceModel, SurfaceSize,
};
use crate::format::TextureFormat;

verus! {

/// How a render call ended.
#[derive(Clone, Copy, Debug, PartialEq, Eq, Hash, Structural)]
pub enum FrameResult {
    /// One frame was drawn, submitted and presented.
    Presented,
    /// No image could be acquired; the surface was configured anew and the draw
    /// is left to the next redraw.
    Deferred(SurfaceError),
    /// No image could be acquired, and configuring anew would not help.
    Failed(SurfaceError),
}

/// What a render call decided: how it ended and what is to be carried out.
#[derive(Debug)]
pub struct RenderOutcome {
    pub result: FrameResult,
    pub commands: Vec<Command>,
}

/// The render pass of a frame: the color view cleared to opaque gray, depth
/// cleared to the farthest value, stencil cleared to zero.
pub open spec fn render_pass(frame: Frame, depth: DepthAttachment) -> RenderPassDescriptor {
    RenderPassDescriptor {
        target_size: frame.size,
        color_view_format: frame.view_format,
        clear_color: ClearColor {
            r: CLEAR_GRAY_BITS,
            g: CLEAR_GRAY_BITS,
            b: CLEAR_GRAY_BITS,
            a: OPAQUE_ALPHA_BITS,
        },
        depth_generation: depth.generation,
        depth_format: depth.format,
        clear_depth: FAR_DEPTH_BITS,
        clear_stencil: 0,
    }
}

/// The commands of one whole frame, in the order in which they are carried out.
pub open spec fn frame_commands(frame: Frame, depth: DepthAttachment) -> Seq<Command> {
    seq![
        Command::BeginRenderPass(render_pass(frame, depth)),
        Command::SetPipeline,
        Command::SetVertexBuffer { slot: 0 },
        Command::Draw {
            first_vertex: 0,
            vertex_count: TRIANGLE_VERTICES,
            first_instance: 0,
            instance_count: 1,
        },
        Command::EndRenderPass,
        Command::Submit,
        Command::PrePresentNotify,
        Command::Present,
    ]
}

/// How a render call ends for each answer of the driver.
pub open spec fn render_result(surface: SurfaceModel, status: AcquireStatus) -> FrameResult
    recommends
        surface.stage is Configured,
{
    match surface.acquired(status) {
        Ok(_) => FrameResult::Presented,
        Err(error) => if error.is_recoverable() {
            FrameResult::Deferred(error)
        } else {
            FrameResult::Failed(error)
        },
    }
}

/// What a render call asks to be carried out for each answer of the driver.
pub open spec fn render_commands(surface: SurfaceModel, status: AcquireStatus) -> Seq<Command>
    recommends
        surface.stage is Configured,
{
    match surface.acquired(status) {
        Ok(frame) => frame_commands(frame, surface.depth->0),
        Err(error) => if error.is_recoverable() {
            surface.configure_commands(surface.size(), surface.format())
        } else {
            Seq::empty()
        },
    }
}

/// The surface after a render call.
pub open spec fn rendered(surface: SurfaceModel, status: AcquireStatus) -> SurfaceModel
    recommends
        surface.stage is Configured,
{
    match surface.acquired(status) {
        Ok(_) => surface,
        Err(error) => if error.is_recoverable() {
            surface.configured(surface.size(), surface.format())
        } else {
            surface
        },
    }
}

/// Orchestrates one frame: acquire, clear and draw, submit, present.
pub struct FrameRenderer {}

impl FrameRenderer {
    /// Decides one frame from the driver's answer to the request for the next image.
    ///
    /// With an image at hand the whole frame is recorded, submitted and presented.
    /// Without one nothing is submitted: after a recoverable error the surface is
    /// configured anew, after any other error it is left alone.
    pub fn render(
        manager: &mut SurfaceManager,
        pipeline: &RenderPipeline,
        geometry: &GeometryBuffer,
        status: AcquireStatus,
    ) -> (outcome: RenderOutcome)
        requires
            old(manager)@.stage is Configured,
            geometry.count() >= TRIANGLE_VERTICES,
            pipeline.described().depth_stencil.format == old(manager)@.depth_format,
        ensures
            final(manager)@ == rendered(old(manager)@, status),
            outcome.result == render_result(old(manager)@, status),
            outcome.commands@ == render_commands(old(manager)@, status),
            final(manager)@.wf(),
            final(manager)@.stage is Configured,
    {
        let depth = manager.depth_attachment();
        match manager.acquire_frame(status) {
            Ok(frame) => {
                let depth = depth.unwrap();
                let pass = RenderPassDescriptor {
                    target_size: frame.size,
                    color_view_format: frame.view_format,
                    clear_color: ClearColor {
                        r: CLEAR_GRAY_BITS,
                        g: CLEAR_GRAY_BITS,
                        b: CLEAR_GRAY_BITS,
                        a: OPAQUE_ALPHA_BITS,
                    },
                    depth_generation: depth.generation,
                    depth_format: depth.format,
                    clear_depth: FAR_DEPTH_BITS,
                    clear_stencil: 0,
                };
                let mut commands: Vec<Command> = Vec::new();
                commands.push(Command::BeginRenderPass(pass));
                commands.push(Command::SetPipeline);
                commands.push(Command::SetVertexBuffer { slot: 0 });
                commands.push(
                    Command::Draw {
                        first_vertex: 0,
                        vertex_count: TRIANGLE_VERTICES,
                        first_instance: 0,
                        instance_count: 1,
                    },
                );
                commands.push(Command::EndRenderPass);
                commands.push(Command::Submit);
                commands.push(Command::PrePresentNotify);
                commands.push(Command::Present);
                assert(commands@ =~= frame_commands(frame, depth));
                RenderOutcome { result: FrameResult::Presented, commands }
            },
            Err(error) => {
                if error.recoverable() {
                    let commands = manager.reconfigure();
                    RenderOutcome { result: FrameResult::Deferred(error), commands }
                } else {
                    RenderOutcome { result: FrameResult::Failed(error), commands: Vec::new() }
                }
            },
        }
    }
}

/// The counts of a whole frame: one draw, one submission, one presentation.
pub proof fn lemma_frame_counts(frame: Frame, depth: DepthAttachment)
    ensures
        draw_count(frame_commands(frame, depth)) == 1,
        submit_count(frame_commands(frame, depth)) == 1,
        present_count(frame_commands(frame, depth)) == 1,
{
    let c = frame_commands(frame, depth);
    let s0 = Seq::<Command>::empty();
    let s1 = s0.push(c[0]);
    let s2 = s1.push(c[1]);
    let s3 = s2.push(c[2]);
    let s4 = s3.push(c[3]);
    let s5 = s4.push(c[4]);
    let s6 = s5.push(c[5]);
    let s7 = s6.push(c[6]);
    let s8 = s7.push(c[7]);
    assert(s8 =~= c);
    lemma_counts_push(s0, c[0]);
    lemma_counts_push(s1, c[1]);
    lemma_counts_push(s2, c[2]);
    lemma_counts_push(s3, c[3]);
    lemma_counts_push(s4, c[4]);
    lemma_counts_push(s5, c[5]);
    lemma_counts_push(s6, c[6]);
    lemma_counts_push(s7, c[7]);
}

/// Configuring a surface draws, submits and presents nothing.
pub proof fn lemma_configure_counts(surface: SurfaceModel, size: SurfaceSize, format: TextureFormat)
    ensures
        draw_count(surface.configure_commands(size, format)) == 0,
        submit_count(surface.configure_commands(size, format)) == 0,
        present_count(surface.configure_commands(size, format)) == 0,
{
    let c = surface.configure_commands(size, format);
    let s0 = Seq::<Command>::empty();
    let s1 = s0.push(c[0]);
    let s2 = s1.push(c[1]);
    assert(s2 =~= c);
    lemma_counts_push(s0, c[0]);
    lemma_counts_push(s1, c[1]);
}

/// Every render call that presents holds exactly one draw call, of three
/// vertices and one instance, in its pass; the pass is submitted once, and
/// the frame is presented once, after the submission.
pub proof fn law_one_draw_per_frame(surface: SurfaceModel, status: AcquireStatus)
    requires
        surface.wf(),
        surface.stage is Configured,
        render_result(surface, status) is Presented,
    ensures
        draw_count(render_commands(surface, status)) == 1,
        render_commands(surface, status)[3] == (Command::Draw {
            first_vertex: 0,
            vertex_count: 3,
            first_instance: 0,
            instance_count: 1,
        }),
        submit_count(render_commands(surface, status)) == 1,
        present_count(render_commands(surface, status)) == 1,
        render_commands(surface, status)[0] is BeginRenderPass,
        render_commands(surface, status)[4] is EndRenderPass,
        render_commands(surface, status)[5] is Submit,
        render_commands(surface, status)[6] is PrePresentNotify,
        render_commands(surface, status)[7] is Present,
        render_commands(surface, status).len() == 8,
{
    lemma_frame_counts(surface.acquired(status)->Ok_0, surface.depth->0);
}

/// A render call presents exactly when the driver handed out an image. The
/// pass then targets the whole surface and the depth attachment of the current
/// configuration.
pub proof fn law_presented_when_image_available(surface: SurfaceModel, status: AcquireStatus)
    requires
        surface.wf(),
        surface.stage is Configured,
    ensures
        render_result(surface, status) is Presented <==> status.image_available(),
        status.image_available() ==> render_commands(surface, status)[0]
            == Command::BeginRenderPass(
            render_pass(surface.frame(status == AcquireStatus::Suboptimal), surface.depth->0),
        ),
        status.image_available() ==> render_pass(
            surface.frame(status == AcquireStatus::Suboptimal),
            surface.depth->0,
        ).target_size == surface.size() && surface.depth->0.size == surface.size(),
{
}

/// No partial frame: a render call either holds the whole frame, or it
/// draws, submits and presents nothing at all.
pub proof fn law_no_partial_frame(surface: SurfaceModel, status: AcquireStatus)
    requires
        surface.wf(),
        surface.stage is Configured,
    ensures
        render_result(surface, status) is Presented || (draw_count(
            render_commands(surface, status),
        ) == 0 && submit_count(render_commands(surface, status)) == 0 && present_count(
            render_commands(surface, status),
        ) == 0),
{
    lemma_configure_counts(surface, surface.size(), surface.format());
}

/// A render call that meets an outdated, lost or timed-out surface submits
/// nothing and leaves the surface configured, so that after a later
/// `configure` the next image that the driver hands out is presented.
pub proof fn law_recoverable_error_defers(
    surface: SurfaceModel,
    status: AcquireStatus,
    size: SurfaceSize,
    format: TextureFormat,
    next: AcquireStatus,
)
    requires
        surface.wf(),
        surface.stage is Configured,
        status == AcquireStatus::Outdated || status == AcquireStatus::Lost || status
            == AcquireStatus::Timeout,
        size.is_drawable(),
        surface.supported.contains(format),
        next.image_available(),
    ensures
        render_result(surface, status) is Deferred,
        submit_count(render_commands(surface, status)) == 0,
        present_count(render_commands(surface, status)) == 0,
        draw_count(render_commands(surface, status)) == 0,
        rendered(surface, status).wf(),
        rendered(surface, status).stage is Configured,
        rendered(surface, status).size() == surface.size(),
        render_result(rendered(surface, status).configured(size, format), next) is Presented,
        render_result(rendered(surface, status), next) is Presented,
{
    lemma_configure_counts(surface, surface.size(), surface.format());
}

} // verus!
