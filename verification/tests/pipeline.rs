use render_scaffold::context::InitError;
use render_scaffold::format::TextureFormat;
use render_scaffold::geometry::{VertexFormat, VertexStepMode};
use render_scaffold::pipeline::{
    ColorTargetState, CompareFunction, DepthStencilState, MultisampleState, PrimitiveState,
    PrimitiveTopology, RenderPipeline, ShaderModule, COLOR_WRITES_ALL,
};

#[test]
fn built_pipeline_has_the_fixed_state() {
    let pipeline = RenderPipeline::build(
        ShaderModule::Compiled,
        TextureFormat::Bgra8UnormSrgb,
        TextureFormat::Depth24PlusStencil8,
    )
    .unwrap();
    let d = pipeline.descriptor();
    assert_eq!(d.vertex_buffer.array_stride, 32);
    assert_eq!(d.vertex_buffer.step_mode, VertexStepMode::Vertex);
    assert_eq!(d.vertex_buffer.attributes.len(), 2);
    assert_eq!(d.vertex_buffer.attributes[0].format, VertexFormat::Float32x4);
    assert_eq!(d.vertex_buffer.attributes[0].offset, 0);
    assert_eq!(d.vertex_buffer.attributes[0].shader_location, 0);
    assert_eq!(d.vertex_buffer.attributes[1].format, VertexFormat::Float32x4);
    assert_eq!(d.vertex_buffer.attributes[1].offset, 16);
    assert_eq!(d.vertex_buffer.attributes[1].shader_location, 1);
    assert_eq!(
        d.primitive,
        PrimitiveState {
            topology: PrimitiveTopology::TriangleList,
            cull_mode: None,
            unclipped_depth: false,
            conservative: false,
        }
    );
    assert_eq!(
        d.depth_stencil,
        DepthStencilState {
            format: TextureFormat::Depth24PlusStencil8,
            depth_write_enabled: true,
            depth_compare: CompareFunction::Less,
            stencil_enabled: false,
        }
    );
    assert_eq!(d.multisample, MultisampleState { count: 1, mask: u64::MAX, alpha_to_coverage_enabled: false });
    assert_eq!(
        d.target,
        ColorTargetState { format: TextureFormat::Bgra8UnormSrgb, blend_enabled: false, write_mask: COLOR_WRITES_ALL }
    );
    assert_eq!(pipeline.color_format(), TextureFormat::Bgra8UnormSrgb);
    assert_eq!(pipeline.depth_format(), TextureFormat::Depth24PlusStencil8);
}

#[test]
fn fixed_state_is_what_the_gpu_library_defaults_to() {
    let pipeline = RenderPipeline::build(
        ShaderModule::Compiled,
        TextureFormat::Rgba8Unorm,
        TextureFormat::Depth32Float,
    )
    .unwrap();
    let d = pipeline.descriptor();
    let primitive = wgpu::PrimitiveState::default();
    assert_eq!(primitive.topology, wgpu::PrimitiveTopology::TriangleList);
    assert_eq!(d.primitive.topology, PrimitiveTopology::TriangleList);
    assert_eq!(primitive.cull_mode.is_none(), d.primitive.cull_mode.is_none());
    assert_eq!(primitive.unclipped_depth, d.primitive.unclipped_depth);
    assert_eq!(primitive.conservative, d.primitive.conservative);
    let multisample = wgpu::MultisampleState::default();
    assert_eq!(multisample.count, d.multisample.count);
    assert_eq!(multisample.mask, d.multisample.mask);
    assert_eq!(multisample.alpha_to_coverage_enabled, d.multisample.alpha_to_coverage_enabled);
    assert_eq!(wgpu::ColorWrites::ALL.bits(), d.target.write_mask);
    assert_eq!(wgpu::StencilState::default().is_enabled(), d.depth_stencil.stencil_enabled);
}

#[test]
fn malformed_shader_fails_compilation() {
    assert_eq!(
        RenderPipeline::build(ShaderModule::Malformed, TextureFormat::Bgra8Unorm, TextureFormat::Depth24PlusStencil8),
        Err(InitError::ShaderCompilationError)
    );
}

#[test]
fn malformed_shader_is_reported_before_bad_formats() {
    assert_eq!(
        RenderPipeline::build(ShaderModule::Malformed, TextureFormat::Depth32Float, TextureFormat::Bgra8Unorm),
        Err(InitError::ShaderCompilationError)
    );
}

#[test]
fn depth_format_as_color_target_is_unsupported() {
    assert_eq!(
        RenderPipeline::build(ShaderModule::Compiled, TextureFormat::Depth32Float, TextureFormat::Depth24PlusStencil8),
        Err(InitError::UnsupportedTargetFormat)
    );
}

#[test]
fn color_format_as_depth_target_is_unsupported() {
    assert_eq!(
        RenderPipeline::build(ShaderModule::Compiled, TextureFormat::Bgra8Unorm, TextureFormat::Rgba8Unorm),
        Err(InitError::UnsupportedTargetFormat)
    );
}

#[test]
fn every_color_format_pairs_with_every_depth_format() {
    let colors = [
        TextureFormat::Rgba8Unorm,
        TextureFormat::Rgba8UnormSrgb,
        TextureFormat::Bgra8Unorm,
        TextureFormat::Bgra8UnormSrgb,
        TextureFormat::Rgb10a2Unorm,
        TextureFormat::Rgba16Float,
    ];
    let depths = [TextureFormat::Depth32Float, TextureFormat::Depth24Plus, TextureFormat::Depth24PlusStencil8];
    for color in colors {
        for depth in depths {
            let pipeline = RenderPipeline::build(ShaderModule::Compiled, color, depth).unwrap();
            assert_eq!(pipeline.color_format(), color);
            assert_eq!(pipeline.depth_format(), depth);
        }
    }
}
