use render_scaffold::format::TextureFormat;

const ALL: [TextureFormat; 9] = [
    TextureFormat::Rgba8Unorm,
    TextureFormat::Rgba8UnormSrgb,
    TextureFormat::Bgra8Unorm,
    TextureFormat::Bgra8UnormSrgb,
    TextureFormat::Rgb10a2Unorm,
    TextureFormat::Rgba16Float,
    TextureFormat::Depth32Float,
    TextureFormat::Depth24Plus,
    TextureFormat::Depth24PlusStencil8,
];

fn outside(format: TextureFormat) -> wgpu::TextureFormat {
    match format {
        TextureFormat::Rgba8Unorm => wgpu::TextureFormat::Rgba8Unorm,
        TextureFormat::Rgba8UnormSrgb => wgpu::TextureFormat::Rgba8UnormSrgb,
        TextureFormat::Bgra8Unorm => wgpu::TextureFormat::Bgra8Unorm,
        TextureFormat::Bgra8UnormSrgb => wgpu::TextureFormat::Bgra8UnormSrgb,
        TextureFormat::Rgb10a2Unorm => wgpu::TextureFormat::Rgb10a2Unorm,
        TextureFormat::Rgba16Float => wgpu::TextureFormat::Rgba16Float,
        TextureFormat::Depth32Float => wgpu::TextureFormat::Depth32Float,
        TextureFormat::Depth24Plus => wgpu::TextureFormat::Depth24Plus,
        TextureFormat::Depth24PlusStencil8 => wgpu::TextureFormat::Depth24PlusStencil8,
    }
}

#[test]
fn srgb_suffix_of_each_format() {
    assert_eq!(TextureFormat::Rgba8Unorm.add_srgb_suffix(), TextureFormat::Rgba8UnormSrgb);
    assert_eq!(TextureFormat::Bgra8Unorm.add_srgb_suffix(), TextureFormat::Bgra8UnormSrgb);
    assert_eq!(TextureFormat::Rgba8UnormSrgb.add_srgb_suffix(), TextureFormat::Rgba8UnormSrgb);
    assert_eq!(TextureFormat::Bgra8UnormSrgb.add_srgb_suffix(), TextureFormat::Bgra8UnormSrgb);
    assert_eq!(TextureFormat::Rgb10a2Unorm.add_srgb_suffix(), TextureFormat::Rgb10a2Unorm);
    assert_eq!(TextureFormat::Rgba16Float.add_srgb_suffix(), TextureFormat::Rgba16Float);
    assert_eq!(TextureFormat::Depth32Float.add_srgb_suffix(), TextureFormat::Depth32Float);
    assert_eq!(TextureFormat::Depth24Plus.add_srgb_suffix(), TextureFormat::Depth24Plus);
    assert_eq!(TextureFormat::Depth24PlusStencil8.add_srgb_suffix(), TextureFormat::Depth24PlusStencil8);
}

#[test]
fn srgb_suffix_agrees_with_the_gpu_library() {
    for format in ALL {
        assert_eq!(outside(format.add_srgb_suffix()), outside(format).add_srgb_suffix());
    }
}

#[test]
fn srgb_suffix_is_idempotent() {
    for format in ALL {
        assert_eq!(format.add_srgb_suffix().add_srgb_suffix(), format.add_srgb_suffix());
    }
}

#[test]
fn depth_and_color_aspects_agree_with_the_gpu_library() {
    for format in ALL {
        assert_eq!(format.is_depth(), outside(format).has_depth_aspect());
        assert_eq!(format.is_color(), outside(format).has_color_aspect());
        assert_ne!(format.is_depth(), format.is_color());
    }
}

#[test]
fn depth_formats_are_exactly_three() {
    assert!(TextureFormat::Depth32Float.is_depth());
    assert!(TextureFormat::Depth24Plus.is_depth());
    assert!(TextureFormat::Depth24PlusStencil8.is_depth());
    assert!(!TextureFormat::Bgra8UnormSrgb.is_depth());
    assert!(TextureFormat::Bgra8UnormSrgb.is_color());
}
