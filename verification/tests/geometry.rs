use render_scaffold::geometry::{
    triangle, BufferUsage, GeometryBuffer, VertexAttribute, VertexFormat, VertexInput,
    VertexStepMode, F32_MINUS_ONE, F32_ONE, F32_ZERO,
};

fn floats(words: [u32; 4]) -> [f32; 4] {
    [
        f32::from_bits(words[0]),
        f32::from_bits(words[1]),
        f32::from_bits(words[2]),
        f32::from_bits(words[3]),
    ]
}

fn vertex(position: [f32; 4], color: [f32; 4]) -> VertexInput {
    VertexInput {
        position: [position[0].to_bits(), position[1].to_bits(), position[2].to_bits(), position[3].to_bits()],
        color: [color[0].to_bits(), color[1].to_bits(), color[2].to_bits(), color[3].to_bits()],
    }
}

#[test]
fn float_constants_are_the_bits_of_their_values() {
    assert_eq!(f32::from_bits(F32_ZERO), 0.0);
    assert_eq!(f32::from_bits(F32_ONE), 1.0);
    assert_eq!(f32::from_bits(F32_MINUS_ONE), -1.0);
}

#[test]
fn layout_is_interleaved_position_and_color() {
    let layout = VertexInput::desc();
    assert_eq!(layout.array_stride, 32);
    assert_eq!(layout.step_mode, VertexStepMode::Vertex);
    assert_eq!(
        layout.attributes,
        vec![
            VertexAttribute { format: VertexFormat::Float32x4, offset: 0, shader_location: 0 },
            VertexAttribute { format: VertexFormat::Float32x4, offset: 16, shader_location: 1 },
        ]
    );
}

#[test]
fn layout_stride_is_the_size_of_a_vertex_in_memory() {
    let layout = VertexInput::desc();
    assert_eq!(layout.array_stride, std::mem::size_of::<VertexInput>() as u64);
    assert_eq!(layout.array_stride, 2 * wgpu::VertexFormat::Float32x4.size());
    assert_eq!(layout.attributes[1].offset, wgpu::VertexFormat::Float32x4.size());
}

#[test]
fn triangle_has_red_green_and_blue_corners() {
    let vertices = triangle();
    assert_eq!(vertices.len(), 3);
    assert_eq!(floats(vertices[0].position), [1.0, -1.0, 0.0, 1.0]);
    assert_eq!(floats(vertices[0].color), [1.0, 0.0, 0.0, 1.0]);
    assert_eq!(floats(vertices[1].position), [-1.0, -1.0, 0.0, 1.0]);
    assert_eq!(floats(vertices[1].color), [0.0, 1.0, 0.0, 1.0]);
    assert_eq!(floats(vertices[2].position), [0.0, 1.0, 0.0, 1.0]);
    assert_eq!(floats(vertices[2].color), [0.0, 0.0, 1.0, 1.0]);
    assert_ne!(vertices[0].color, vertices[1].color);
    assert_ne!(vertices[1].color, vertices[2].color);
    assert_ne!(vertices[0].color, vertices[2].color);
}

#[test]
fn upload_of_triangle_is_its_floats_in_memory_order() {
    let buffer = GeometryBuffer::upload(&triangle());
    let values: [f32; 24] = [
        1.0, -1.0, 0.0, 1.0, 1.0, 0.0, 0.0, 1.0, //
        -1.0, -1.0, 0.0, 1.0, 0.0, 1.0, 0.0, 1.0, //
        0.0, 1.0, 0.0, 1.0, 0.0, 0.0, 1.0, 1.0,
    ];
    let mut expected: Vec<u8> = Vec::new();
    for value in values {
        expected.extend_from_slice(&value.to_ne_bytes());
    }
    assert_eq!(buffer.contents(), &expected);
    assert_eq!(buffer.contents().as_slice(), bytemuck::cast_slice::<f32, u8>(&values));
    assert_eq!(buffer.contents().len(), 96);
    assert_eq!(buffer.vertex_count(), 3);
    assert_eq!(buffer.usage(), BufferUsage::Vertex);
}

#[test]
fn upload_keeps_every_byte_of_every_word() {
    let v = VertexInput {
        position: [0x0102_0304, 0x0506_0708, 0x090A_0B0C, 0x0D0E_0F10],
        color: [0x1112_1314, 0x1516_1718, 0x191A_1B1C, 0x1D1E_1F20],
    };
    let buffer = GeometryBuffer::upload(&vec![v]);
    let bytes = buffer.contents();
    assert_eq!(bytes.len(), 32);
    let little: Vec<u8> = v.position.iter().chain(v.color.iter()).flat_map(|w| w.to_le_bytes()).collect();
    let big: Vec<u8> = v.position.iter().chain(v.color.iter()).flat_map(|w| w.to_be_bytes()).collect();
    assert!(bytes == &little || bytes == &big);
    let native: Vec<u8> = v.position.iter().chain(v.color.iter()).flat_map(|w| w.to_ne_bytes()).collect();
    assert_eq!(bytes, &native);
    assert_eq!(buffer.vertex_count(), 1);
}

#[test]
fn upload_of_nothing_is_empty() {
    let buffer = GeometryBuffer::upload(&Vec::new());
    assert!(buffer.contents().is_empty());
    assert_eq!(buffer.vertex_count(), 0);
    assert_eq!(buffer.usage(), BufferUsage::Vertex);
}

#[test]
fn upload_lays_vertices_end_to_end() {
    let a = vertex([0.5, 0.25, 0.0, 1.0], [0.1, 0.2, 0.3, 0.4]);
    let b = vertex([-0.5, 2.0, 3.0, 1.0], [0.9, 0.8, 0.7, 0.6]);
    let both = GeometryBuffer::upload(&vec![a, b]);
    let first = GeometryBuffer::upload(&vec![a]);
    let second = GeometryBuffer::upload(&vec![b]);
    assert_eq!(both.contents().len(), 64);
    assert_eq!(&both.contents()[..32], first.contents().as_slice());
    assert_eq!(&both.contents()[32..], second.contents().as_slice());
    assert_eq!(both.vertex_count(), 2);
    assert_eq!(&both.contents()[..4], &0.5f32.to_ne_bytes());
    assert_eq!(&both.contents()[16..20], &0.1f32.to_ne_bytes());
}
