use render_scaffold::command::{
    ClearColor, Command, RenderPassDescriptor, CLEAR_GRAY_BITS, FAR_DEPTH_BITS, OPAQUE_ALPHA_BITS,
    TRIANGLE_VERTICES,
};
use render_scaffold::format::TextureFormat;
use render_scaffold::frame::{FrameRenderer, FrameResult};
use render_scaffold::geometry::{triangle, GeometryBuffer};
use render_scaffold::pipeline::{RenderPipeline, ShaderModule};
use render_scaffold::surface::{AcquireStatus, SurfaceError, SurfaceManager, SurfaceSize};

fn parts(w: u32, h: u32) -> (SurfaceManager, RenderPipeline, GeometryBuffer) {
    let mut manager = SurfaceManager::new(vec![TextureFormat::Bgra8Unorm], TextureFormat::Depth24PlusStencil8);
    manager.configure(SurfaceSize::new(w, h), TextureFormat::Bgra8Unorm);
    let pipeline =
        RenderPipeline::build(ShaderModule::Compiled, TextureFormat::Bgra8Unorm, TextureFormat::Depth24PlusStencil8)
            .unwrap();
    (manager, pipeline, GeometryBuffer::upload(&triangle()))
}

fn pass(w: u32, h: u32, generation: u64) -> RenderPassDescriptor {
    RenderPassDescriptor {
        target_size: SurfaceSize::new(w, h),
        color_view_format: TextureFormat::Bgra8UnormSrgb,
        clear_color: ClearColor {
            r: 0.3f64.to_bits(),
            g: 0.3f64.to_bits(),
            b: 0.3f64.to_bits(),
            a: 1.0f64.to_bits(),
        },
        depth_generation: generation,
        depth_format: TextureFormat::Depth24PlusStencil8,
        clear_depth: 1.0f32.to_bits(),
        clear_stencil: 0,
    }
}

fn count(commands: &[Command], wanted: fn(&Command) -> bool) -> usize {
    commands.iter().filter(|c| wanted(c)).count()
}

fn is_draw(c: &Command) -> bool {
    matches!(c, Command::Draw { .. })
}

fn is_submit(c: &Command) -> bool {
    matches!(c, Command::Submit)
}

fn is_present(c: &Command) -> bool {
    matches!(c, Command::Present)
}

#[test]
fn clear_values_are_the_bits_of_gray_and_far() {
    assert_eq!(f64::from_bits(CLEAR_GRAY_BITS), 0.3);
    assert_eq!(f64::from_bits(OPAQUE_ALPHA_BITS), 1.0);
    assert_eq!(f32::from_bits(FAR_DEPTH_BITS), 1.0);
    assert_eq!(TRIANGLE_VERTICES, 3);
}

#[test]
fn render_with_image_records_submits_and_presents() {
    let (mut manager, pipeline, geometry) = parts(800, 600);
    let outcome = FrameRenderer::render(&mut manager, &pipeline, &geometry, AcquireStatus::Good);
    assert_eq!(outcome.result, FrameResult::Presented);
    assert_eq!(
        outcome.commands,
        vec![
            Command::BeginRenderPass(pass(800, 600, 1)),
            Command::SetPipeline,
            Command::SetVertexBuffer { slot: 0 },
            Command::Draw { first_vertex: 0, vertex_count: 3, first_instance: 0, instance_count: 1 },
            Command::EndRenderPass,
            Command::Submit,
            Command::PrePresentNotify,
            Command::Present,
        ]
    );
    assert_eq!(manager.generation(), 1);
}

#[test]
fn render_draws_exactly_once() {
    for status in [AcquireStatus::Good, AcquireStatus::Suboptimal] {
        let (mut manager, pipeline, geometry) = parts(320, 200);
        let outcome = FrameRenderer::render(&mut manager, &pipeline, &geometry, status);
        assert_eq!(outcome.result, FrameResult::Presented);
        assert_eq!(count(&outcome.commands, is_draw), 1);
        assert_eq!(count(&outcome.commands, is_submit), 1);
        assert_eq!(count(&outcome.commands, is_present), 1);
        let draw = outcome.commands.iter().position(is_draw).unwrap();
        let submit = outcome.commands.iter().position(is_submit).unwrap();
        let present = outcome.commands.iter().position(is_present).unwrap();
        assert!(draw < submit && submit < present);
        assert_eq!(
            outcome.commands[draw],
            Command::Draw { first_vertex: 0, vertex_count: 3, first_instance: 0, instance_count: 1 }
        );
    }
}

#[test]
fn render_on_outdated_surface_submits_nothing_and_recovers() {
    let (mut manager, pipeline, geometry) = parts(800, 600);
    let outcome = FrameRenderer::render(&mut manager, &pipeline, &geometry, AcquireStatus::Outdated);
    assert_eq!(outcome.result, FrameResult::Deferred(SurfaceError::SurfaceOutdated));
    assert_eq!(count(&outcome.commands, is_submit), 0);
    assert_eq!(count(&outcome.commands, is_present), 0);
    assert_eq!(count(&outcome.commands, is_draw), 0);
    assert_eq!(outcome.commands.len(), 2);
    assert!(matches!(outcome.commands[0], Command::ConfigureSurface(c) if c.width == 800 && c.height == 600));
    assert!(matches!(outcome.commands[1], Command::CreateDepthAttachment(d) if d.generation == 2));
    assert!(manager.is_configured());
    assert_eq!(manager.generation(), 2);

    manager.configure(SurfaceSize::new(1024, 768), TextureFormat::Bgra8Unorm);
    let again = FrameRenderer::render(&mut manager, &pipeline, &geometry, AcquireStatus::Good);
    assert_eq!(again.result, FrameResult::Presented);
    assert_eq!(again.commands[0], Command::BeginRenderPass(pass(1024, 768, 3)));
    assert_eq!(again.commands.len(), 8);
}

#[test]
fn render_on_lost_surface_or_timeout_is_deferred() {
    for (status, error) in
        [(AcquireStatus::Lost, SurfaceError::SurfaceLost), (AcquireStatus::Timeout, SurfaceError::Timeout)]
    {
        let (mut manager, pipeline, geometry) = parts(800, 600);
        let outcome = FrameRenderer::render(&mut manager, &pipeline, &geometry, status);
        assert_eq!(outcome.result, FrameResult::Deferred(error));
        assert_eq!(outcome.commands.len(), 2);
        assert_eq!(count(&outcome.commands, is_submit), 0);
        assert_eq!(manager.generation(), 2);
        assert_eq!(manager.configuration().unwrap().extent(), SurfaceSize::new(800, 600));
        let next = FrameRenderer::render(&mut manager, &pipeline, &geometry, AcquireStatus::Good);
        assert_eq!(next.result, FrameResult::Presented);
    }
}

#[test]
fn render_on_fatal_error_leaves_everything_alone() {
    for (status, error) in
        [(AcquireStatus::OutOfMemory, SurfaceError::OutOfMemory), (AcquireStatus::Unknown, SurfaceError::Unknown)]
    {
        let (mut manager, pipeline, geometry) = parts(800, 600);
        let outcome = FrameRenderer::render(&mut manager, &pipeline, &geometry, status);
        assert_eq!(outcome.result, FrameResult::Failed(error));
        assert!(outcome.commands.is_empty());
        assert_eq!(manager.generation(), 1);
        assert!(manager.is_configured());
    }
}

#[test]
fn render_pass_uses_the_depth_attachment_of_the_current_generation() {
    let (mut manager, pipeline, geometry) = parts(800, 600);
    manager.resize(SurfaceSize::new(400, 300));
    let outcome = FrameRenderer::render(&mut manager, &pipeline, &geometry, AcquireStatus::Good);
    assert_eq!(outcome.commands[0], Command::BeginRenderPass(pass(400, 300, 2)));
    assert_eq!(manager.depth_attachment().unwrap().generation, 2);
    assert_eq!(manager.depth_attachment().unwrap().size, SurfaceSize::new(400, 300));
}
