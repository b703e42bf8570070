use vstd::prelude::*;

verus! {

/// `0.0` as an IEEE-754 single.
pub const F32_ZERO: u32 = 0x0000_0000;

/// `1.0` as an IEEE-754 single.
pub const F32_ONE: u32 = 0x3F80_0000;

/// `-1.0` as an IEEE-754 single.
pub const F32_MINUS_ONE: u32 = 0xBF80_0000;

/// The most vertices that one upload takes: eight words each, counted in 32 bits.
pub const MAX_UPLOAD_VERTICES: usize = 0x0FFF_FFFF;

/// The component layouts of a vertex attribute that the scaffold knows.
#[derive(Clone, Copy, Debug, PartialEq, Eq, Hash, Structural)]
pub enum VertexFormat {
    Float32,
    Float32x2,
    Float32x3,
    Float32x4,
}

impl VertexFormat {
    /// Bytes that one attribute of the format occupies.
    pub open spec fn byte_size(self) -> u64 {
        match self {
            VertexFormat::Float32 => 4,
            VertexFormat::Float32x2 => 8,
            VertexFormat::Float32x3 => 12,
            VertexFormat::Float32x4 => 16,
        }
    }
}

/// Whether a vertex buffer advances per vertex or per instance.
#[derive(Clone, Copy, Debug, PartialEq, Eq, Hash, Structural)]
pub enum VertexStepMode {
    Vertex,
    Instance,
}

/// One input of the vertex stage within a vertex buffer.
#[derive(Clone, Copy, Debug, PartialEq, Eq, Hash, Structural)]
pub struct VertexAttribute {
    pub format: VertexFormat,
    /// Byte offset of the attribute from the start of its vertex.
    pub offset: u64,
    pub shader_location: u32,
}

/// How the vertex stage reads one vertex buffer.
#[derive(Debug, PartialEq, Eq)]
pub struct VertexBufferLayout {
    /// Bytes from one vertex to the next.
    pub array_stride: u64,
    pub step_mode: VertexStepMode,
    pub attributes: Vec<VertexAttribute>,
}

/// What a GPU buffer is allowed to be used for.
#[derive(Clone, Copy, Debug, PartialEq, Eq, Hash, Structural)]
pub enum BufferUsage {
    Vertex,
    Index,
    Uniform,
    Storage,
}

/// One corner of the drawn primitive.
///
/// Each component holds the bit pattern of an IEEE-754 single, so that a
/// vertex is the same eight 32-bit words in memory as its floating-point form.
#[derive(Clone, Copy, Debug, PartialEq, Eq)]
pub struct VertexInput {
    pub position: [u32; 4],
    pub color: [u32; 4],
}

impl VertexInput {
    /// The eight words of a vertex: position, then color.
    pub open spec fn words(self) -> Seq<u32> {
        self.position@ + self.color@
    }

    /// The attributes of the interleaved layout: position at location 0, color
    /// at location 1, packed without gaps.
    pub open spec fn attributes() -> Seq<VertexAttribute> {
        seq![
            VertexAttribute { format: VertexFormat::Float32x4, offset: 0, shader_location: 0 },
            VertexAttribute { format: VertexFormat::Float32x4, offset: 16, shader_location: 1 },
        ]
    }

    /// The layout of a buffer of vertices: 32 bytes per vertex, stepped per vertex.
    pub fn desc() -> (layout: VertexBufferLayout)
        ensures
            layout.array_stride == 32,
            layout.step_mode == VertexStepMode::Vertex,
            layout.attributes@ == Self::attributes(),
    {
        let position = VertexFormat::Float32x4;
        let color = VertexFormat::Float32x4;
        let color_offset: u64 = format_size(position);
        let stride: u64 = color_offset + format_size(color);
        let mut attributes: Vec<VertexAttribute> = Vec::new();
        attributes.push(VertexAttribute { format: position, offset: 0, shader_location: 0 });
        attributes.push(VertexAttribute { format: color, offset: color_offset, shader_location: 1 });
        assert(attributes@ =~= Self::attributes());
        VertexBufferLayout { array_stride: stride, step_mode: VertexStepMode::Vertex, attributes }
    }
}

/// The size in bytes of a vertex format, as `wgpu::VertexFormat::size` gives it:
/// four bytes for each 32-bit float component.
#[verifier::external_body]
fn format_size(format: VertexFormat) -> (bytes: u64)
    ensures
        bytes == format.byte_size(),
{
    let outside = match format {
        VertexFormat::Float32 => wgpu::VertexFormat::Float32,
        VertexFormat::Float32x2 => wgpu::VertexFormat::Float32x2,
        VertexFormat::Float32x3 => wgpu::VertexFormat::Float32x3,
        VertexFormat::Float32x4 => wgpu::VertexFormat::Float32x4,
    };
    outside.size()
}

/// The corners of the fixed triangle: right, left, top.
pub open spec fn triangle_positions() -> Seq<Seq<u32>> {
    seq![
        seq![F32_ONE, F32_MINUS_ONE, F32_ZERO, F32_ONE],
        seq![F32_MINUS_ONE, F32_MINUS_ONE, F32_ZERO, F32_ONE],
        seq![F32_ZERO, F32_ONE, F32_ZERO, F32_ONE],
    ]
}

/// The colors of the fixed triangle: opaque red, green and blue.
pub open spec fn triangle_colors() -> Seq<Seq<u32>> {
    seq![
        seq![F32_ONE, F32_ZERO, F32_ZERO, F32_ONE],
        seq![F32_ZERO, F32_ONE, F32_ZERO, F32_ONE],
        seq![F32_ZERO, F32_ZERO, F32_ONE, F32_ONE],
    ]
}

/// Whether `vertices` is the fixed triangle.
pub open spec fn is_triangle(vertices: Seq<VertexInput>) -> bool {
    &&& vertices.len() == 3
    &&& forall|i: int|
        0 <= i < 3 ==> (#[trigger] vertices[i]).position@ == triangle_positions()[i]
            && vertices[i].color@ == triangle_colors()[i]
}

/// The three vertices of the one triangle that the scaffold draws.
pub fn triangle() -> (vertices: Vec<VertexInput>)
    ensures
        is_triangle(vertices@),
{
    let mut vertices: Vec<VertexInput> = Vec::new();
    vertices.push(
        VertexInput {
            position: [F32_ONE, F32_MINUS_ONE, F32_ZERO, F32_ONE],
            color: [F32_ONE, F32_ZERO, F32_ZERO, F32_ONE],
        },
    );
    vertices.push(
        VertexInput {
            position: [F32_MINUS_ONE, F32_MINUS_ONE, F32_ZERO, F32_ONE],
            color: [F32_ZERO, F32_ONE, F32_ZERO, F32_ONE],
        },
    );
    vertices.push(
        VertexInput {
            position: [F32_ZERO, F32_ONE, F32_ZERO, F32_ONE],
            color: [F32_ZERO, F32_ZERO, F32_ONE, F32_ONE],
        },
    );
    proof {
        assert(vertices@[0].position@ =~= triangle_positions()[0]);
        assert(vertices@[1].position@ =~= triangle_positions()[1]);
        assert(vertices@[2].position@ =~= triangle_positions()[2]);
        assert(vertices@[0].color@ =~= triangle_colors()[0]);
        assert(vertices@[1].color@ =~= triangle_colors()[1]);
        assert(vertices@[2].color@ =~= triangle_colors()[2]);
    }
    vertices
}

/// The word at index `k` of the vertices laid end to end.
pub open spec fn word_at(vertices: Seq<VertexInput>, k: int) -> u32 {
    vertices[k / 8].words()[k % 8]
}

/// All vertices as one sequence of words, eight per vertex.
pub open spec fn vertex_words(vertices: Seq<VertexInput>) -> Seq<u32> {
    Seq::new(8 * vertices.len(), |k: int| word_at(vertices, k))
}

/// The 24 words of the fixed triangle.
pub open spec fn triangle_words() -> Seq<u32> {
    Seq::new(
        24,
        |k: int|
            if k % 8 < 4 {
                triangle_positions()[k / 8][k % 8]
            } else {
                triangle_colors()[k / 8][k % 8 - 4]
            },
    )
}

/// Laid end to end, the vertices of the fixed triangle are its 24 words.
pub proof fn lemma_triangle_words(vertices: Seq<VertexInput>)
    requires
        is_triangle(vertices),
    ensures
        vertex_words(vertices) == triangle_words(),
{
    assert forall|k: int| 0 <= k < 24 implies vertex_words(vertices)[k] == triangle_words()[k] by {
        let v = vertices[k / 8];
        assert(v.position@ == triangle_positions()[k / 8]);
        assert(v.color@ == triangle_colors()[k / 8]);
        assert(v.position@.len() == 4);
    }
    assert(vertex_words(vertices) =~= triangle_words());
}

/// Byte `lane` of a word, counted from the least significant.
pub open spec fn byte_of(word: u32, lane: int) -> u8 {
    ((word as int / pow256(lane)) % 256) as u8
}

/// 256 to the power of `lane`, for the four lanes of a word.
pub open spec fn pow256(lane: int) -> int {
    if lane == 0 {
        1
    } else if lane == 1 {
        0x100
    } else if lane == 2 {
        0x1_0000
    } else {
        0x100_0000
    }
}

/// The words in memory order on a little-endian machine.
pub open spec fn little_endian_bytes(words: Seq<u32>) -> Seq<u8> {
    Seq::new(4 * words.len(), |k: int| byte_of(words[k / 4], k % 4))
}

/// The words in memory order on a big-endian machine.
pub open spec fn big_endian_bytes(words: Seq<u32>) -> Seq<u8> {
    Seq::new(4 * words.len(), |k: int| byte_of(words[k / 4], 3 - k % 4))
}

/// The words as the bytes that hold them in memory, by `bytemuck::cast_slice`
/// from `u32` to `u8`. The cast keeps the memory as it is, so the bytes are the
/// words in the machine's byte order: least significant byte first or last.
/// A slice of words is always aligned and sized for bytes, so the cast cannot fail.
#[verifier::external_body]
fn words_as_bytes(words: &Vec<u32>) -> (bytes: Vec<u8>)
    ensures
        bytes@ == little_endian_bytes(words@) || bytes@ == big_endian_bytes(words@),
{
    bytemuck::cast_slice::<u32, u8>(words.as_slice()).to_vec()
}

/// Vertex data as it lies in GPU memory, fixed once it is uploaded.
#[derive(Debug, PartialEq, Eq)]
pub struct GeometryBuffer {
    contents: Vec<u8>,
    usage: BufferUsage,
    vertex_count: u32,
}

impl GeometryBuffer {
    /// The bytes of the buffer.
    pub closed spec fn bytes(&self) -> Seq<u8> {
        self.contents@
    }

    /// How many vertices the buffer holds.
    pub closed spec fn count(&self) -> nat {
        self.vertex_count as nat
    }

    pub closed spec fn tagged(&self) -> BufferUsage {
        self.usage
    }

    /// Copies `vertices` into a buffer for vertex input: 32 bytes per vertex, each
    /// word in the byte order of the machine.
    pub fn upload(vertices: &Vec<VertexInput>) -> (buffer: GeometryBuffer)
        requires
            vertices@.len() <= MAX_UPLOAD_VERTICES,
        ensures
            buffer.count() == vertices@.len(),
            buffer.tagged() == BufferUsage::Vertex,
            buffer.bytes().len() == 32 * vertices@.len(),
            buffer.bytes() == little_endian_bytes(vertex_words(vertices@)) || buffer.bytes()
                == big_endian_bytes(vertex_words(vertices@)),
    {
        let mut words: Vec<u32> = Vec::new();
        let mut i: usize = 0;
        while i < vertices.len()
            invariant
                i <= vertices@.len(),
                vertices@.len() <= MAX_UPLOAD_VERTICES,
                words@.len() == 8 * i,
                forall|k: int| 0 <= k < 8 * i ==> words@[k] == word_at(vertices@, k),
            decreases vertices@.len() - i,
        {
            let vertex = vertices[i];
            let ghost before = words@;
            let mut lane: usize = 0;
            while lane < 4
                invariant
                    lane <= 4,
                    words@.len() == before.len() + lane,
                    forall|k: int| 0 <= k < before.len() ==> words@[k] == before[k],
                    forall|k: int| 0 <= k < lane ==> words@[before.len() + k] == vertex.position@[k],
                decreases 4 - lane,
            {
                words.push(vertex.position[lane]);
                lane = lane + 1;
            }
            let mut lane: usize = 0;
            while lane < 4
                invariant
                    lane <= 4,
                    words@.len() == before.len() + 4 + lane,
                    forall|k: int| 0 <= k < before.len() ==> words@[k] == before[k],
                    forall|k: int| 0 <= k < 4 ==> words@[before.len() + k] == vertex.position@[k],
                    forall|k: int| 0 <= k < lane ==> words@[before.len() + 4 + k] == vertex.color@[k],
                decreases 4 - lane,
            {
                words.push(vertex.color[lane]);
                lane = lane + 1;
            }
            proof {
                assert forall|k: int| 0 <= k < 8 * (i + 1) implies words@[k] == word_at(
                    vertices@,
                    k,
                ) by {
                    if k >= 8 * i {
                        let c = k - 8 * i;
                        assert(k / 8 == i as int);
                        assert(k % 8 == c);
                        assert(vertices@[i as int] == vertex);
                        if c < 4 {
                            assert(words@[before.len() + c] == vertex.position@[c]);
                        } else {
                            assert(words@[before.len() + 4 + (c - 4)] == vertex.color@[c - 4]);
                        }
                    }
                }
            }
            i = i + 1;
        }
        assert(words@ =~= vertex_words(vertices@));
        let contents = words_as_bytes(&words);
        GeometryBuffer { contents, usage: BufferUsage::Vertex, vertex_count: vertices.len() as u32 }
    }

    pub fn contents(&self) -> (bytes: &Vec<u8>)
        ensures
            bytes@ == self.bytes(),
    {
        &self.contents
    }

    pub fn vertex_count(&self) -> (count: u32)
        ensures
            count == self.count(),
    {
        self.vertex_count
    }

    pub fn usage(&self) -> (usage: BufferUsage)
        ensures
            usage == self.tagged(),
    {
        self.usage
    }
}

} // verus!
