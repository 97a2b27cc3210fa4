//! Point, color and vertex data for scatter rendering.
//!
//! The verified core never performs floating-point arithmetic.  Every scalar
//! payload (a coordinate, a color channel, a point size, a viewport extent)
//! is carried as a raw 32-bit word: the IEEE-754 single-precision encoding of
//! the value it stands for.  The core moves, arranges and counts these words;
//! the numeric work that produces them happens at the unverified rim, which
//! encodes and decodes the words losslessly.

use vstd::prelude::*;
use vstd::string::StringSliceAdditionalSpecFns;

verus! {

/// The 32-bit single-precision encoding of 0.0.
pub const ENC_ZERO: u32 = 0x0000_0000;

/// The 32-bit single-precision encoding of 0.5.
pub const ENC_HALF: u32 = 0x3F00_0000;

/// The 32-bit single-precision encoding of 1.0.
pub const ENC_ONE: u32 = 0x3F80_0000;

/// The 32-bit single-precision encoding of 2.0.
pub const ENC_TWO: u32 = 0x4000_0000;

/// The 32-bit single-precision encoding of -1.0.
pub const ENC_NEG_ONE: u32 = 0xBF80_0000;

/// A 2D point; both coordinates are encoded single-precision values.
#[derive(Debug, Clone, Copy)]
pub struct Point2D {
    pub x: u32,
    pub y: u32,
}

impl Point2D {
    pub fn new(x: u32, y: u32) -> (p: Point2D)
        ensures
            p.x == x,
            p.y == y,
    {
        Point2D { x, y }
    }
}

/// An RGBA color; each channel is an encoded single-precision value,
/// logically in [0, 1].
#[derive(Debug, Clone, Copy)]
pub struct Color {
    pub r: u32,
    pub g: u32,
    pub b: u32,
    pub a: u32,
}

impl Color {
    pub fn new(r: u32, g: u32, b: u32, a: u32) -> (c: Color)
        ensures
            c.r == r,
            c.g == g,
            c.b == b,
            c.a == a,
    {
        Color { r, g, b, a }
    }
}

impl Default for Color {
    /// The default color: an opaque medium blue, (0.0, 0.5, 1.0, 1.0).
    fn default() -> (c: Color)
        ensures
            c.r == ENC_ZERO,
            c.g == ENC_HALF,
            c.b == ENC_ONE,
            c.a == ENC_ONE,
    {
        Color { r: ENC_ZERO, g: ENC_HALF, b: ENC_ONE, a: ENC_ONE }
    }
}

/// True if `b` is the ASCII code of a hexadecimal digit.
pub open spec fn is_hex_digit(b: u8) -> bool {
    (48 <= b <= 57) || (65 <= b <= 70) || (97 <= b <= 102)
}

/// The numeric value of the ASCII hexadecimal digit `b`.
pub open spec fn hex_digit_value(b: u8) -> u8
    recommends
        is_hex_digit(b),
{
    if 48 <= b <= 57 {
        (b - 48) as u8
    } else if 65 <= b <= 70 {
        (b - 55) as u8
    } else {
        (b - 87) as u8
    }
}

/// The channel encoded by the digit pair `hi`,`lo`, or `fallback` when the
/// pair is not two hexadecimal digits.
pub open spec fn spec_channel(hi: u8, lo: u8, fallback: u8) -> u8 {
    if is_hex_digit(hi) && is_hex_digit(lo) {
        (16 * hex_digit_value(hi) + hex_digit_value(lo)) as u8
    } else {
        fallback
    }
}

/// How many leading `#` bytes (ASCII 35) `s` starts with.
pub open spec fn hash_prefix_len(s: Seq<u8>) -> nat
    decreases s.len(),
{
    if s.len() > 0 && s[0] == 35 {
        1 + hash_prefix_len(s.drop_first())
    } else {
        0
    }
}

/// `s` with every leading `#` byte removed.
pub open spec fn spec_trimmed(s: Seq<u8>) -> Seq<u8> {
    s.skip(hash_prefix_len(s) as int)
}

/// The hash prefix is the unique run of leading `#` bytes: if the first
/// `k` bytes are `#` and the next one (if any) is not, the prefix length
/// is exactly `k`.
pub proof fn lemma_hash_prefix_len(s: Seq<u8>, k: int)
    requires
        0 <= k <= s.len(),
        forall|j: int| 0 <= j < k ==> s[j] == 35,
        k == s.len() || s[k] != 35,
    ensures
        hash_prefix_len(s) == k,
    decreases s.len(),
{
    if k == 0 {
    } else {
        assert(s[0] == 35);
        lemma_hash_prefix_len(s.drop_first(), k - 1);
    }
}

/// A color as parsed from a hexadecimal string: four channel bytes,
/// each the numerator of a channel value over 255.
#[derive(Debug, Clone, Copy)]
pub struct HexColor {
    pub r: u8,
    pub g: u8,
    pub b: u8,
    pub a: u8,
}

fn is_hex_digit_byte(b: u8) -> (r: bool)
    ensures
        r == is_hex_digit(b),
{
    (48 <= b && b <= 57) || (65 <= b && b <= 70) || (97 <= b && b <= 102)
}

fn hex_digit_value_byte(b: u8) -> (v: u8)
    requires
        is_hex_digit(b),
    ensures
        v == hex_digit_value(b),
{
    if 48 <= b && b <= 57 {
        b - 48
    } else if 65 <= b && b <= 70 {
        b - 55
    } else {
        b - 87
    }
}

fn channel_from_pair(hi: u8, lo: u8, fallback: u8) -> (v: u8)
    ensures
        v == spec_channel(hi, lo, fallback),
{
    if is_hex_digit_byte(hi) && is_hex_digit_byte(lo) {
        16 * hex_digit_value_byte(hi) + hex_digit_value_byte(lo)
    } else {
        fallback
    }
}

impl HexColor {
    /// Parse a color from a hexadecimal string such as `"#FF5733"`.
    ///
    /// Leading `#` bytes are stripped; the first six remaining bytes give the
    /// red, green and blue channels, two digits each.  When at least eight
    /// bytes remain, the seventh and eighth give the alpha channel; otherwise
    /// alpha is fully opaque (255).  A channel whose two bytes are not both
    /// hexadecimal digits reads as 0 — except alpha, which reads as 255 —
    /// rather than failing.
    pub fn from_hex(hex: &str) -> (c: HexColor)
        requires
            spec_trimmed(hex.spec_bytes()).len() >= 6,
        ensures
            ({
                let t = spec_trimmed(hex.spec_bytes());
                &&& c.r == spec_channel(t[0], t[1], 0)
                &&& c.g == spec_channel(t[2], t[3], 0)
                &&& c.b == spec_channel(t[4], t[5], 0)
                &&& c.a == if t.len() >= 8 {
                    spec_channel(t[6], t[7], 255)
                } else {
                    255
                }
            }),
    {
        let bytes: &[u8] = hex.as_bytes();
        let mut start: usize = 0;
        while start < bytes.len() && bytes[start] == 35
            invariant
                start <= bytes@.len(),
                bytes@ == hex.spec_bytes(),
                forall|j: int| 0 <= j < start ==> bytes@[j] == 35,
            decreases bytes@.len() - start,
        {
            start = start + 1;
        }
        proof {
            lemma_hash_prefix_len(bytes@, start as int);
            assert(spec_trimmed(bytes@) == bytes@.skip(start as int));
        }
        let r = channel_from_pair(bytes[start], bytes[start + 1], 0);
        let g = channel_from_pair(bytes[start + 2], bytes[start + 3], 0);
        let b = channel_from_pair(bytes[start + 4], bytes[start + 5], 0);
        let a = if bytes.len() - start >= 8 {
            channel_from_pair(bytes[start + 6], bytes[start + 7], 255)
        } else {
            255
        };
        HexColor { r, g, b, a }
    }
}

/// Bytes in one vertex record: two position words, four color words, one
/// size word and three padding words, four bytes each.
pub const VERTEX_STRIDE: u64 = 40;

/// 32-bit words in one vertex record.
pub const WORDS_PER_VERTEX: usize = 10;

/// Byte offset of the position attribute inside a vertex record.
pub const POSITION_OFFSET: u64 = 0;

/// Byte offset of the color attribute inside a vertex record.
pub const COLOR_OFFSET: u64 = 8;

/// Byte offset of the size attribute inside a vertex record.
pub const SIZE_OFFSET: u64 = 24;

/// A GPU vertex record: position, color and point size, padded with three
/// zero words so that the record is ten words (40 bytes) wide.
#[derive(Debug, Clone, Copy)]
pub struct Vertex {
    pub position: [u32; 2],
    pub color: [u32; 4],
    pub size: u32,
    pub _padding: [u32; 3],
}

/// True if the record `v` holds exactly the point `x`,`y`, the color
/// `color`, the size `size`, and zeroed padding.
pub open spec fn vertex_encodes(v: Vertex, x: u32, y: u32, color: Color, size: u32) -> bool {
    &&& v.position[0] == x
    &&& v.position[1] == y
    &&& v.color[0] == color.r
    &&& v.color[1] == color.g
    &&& v.color[2] == color.b
    &&& v.color[3] == color.a
    &&& v.size == size
    &&& v._padding[0] == 0
    &&& v._padding[1] == 0
    &&& v._padding[2] == 0
}

impl Vertex {
    pub fn new(position: Point2D, color: Color, size: u32) -> (v: Vertex)
        ensures
            vertex_encodes(v, position.x, position.y, color, size),
    {
        Vertex {
            position: [position.x, position.y],
            color: [color.r, color.g, color.b, color.a],
            size,
            _padding: [0, 0, 0],
        }
    }
}

/// The shape of a vertex attribute, named after the shader-side formats:
/// two, four or one single-precision values.
#[derive(Debug, Clone, Copy, PartialEq, Eq, Structural)]
pub enum AttributeFormat {
    Float32x2,
    Float32x4,
    Float32,
}

impl AttributeFormat {
    /// Bytes covered by an attribute of this format.
    pub open spec fn spec_size(self) -> u64 {
        match self {
            AttributeFormat::Float32x2 => 8,
            AttributeFormat::Float32x4 => 16,
            AttributeFormat::Float32 => 4,
        }
    }

    pub fn size(self) -> (s: u64)
        ensures
            s == self.spec_size(),
    {
        match self {
            AttributeFormat::Float32x2 => 8,
            AttributeFormat::Float32x4 => 16,
            AttributeFormat::Float32 => 4,
        }
    }
}

/// One vertex attribute: where it starts in the record, which shader
/// location reads it, and its format.
#[derive(Debug, Clone, Copy, PartialEq, Eq, Structural)]
pub struct VertexAttribute {
    pub offset: u64,
    pub shader_location: u32,
    pub format: AttributeFormat,
}

/// The layout of the vertex buffer: the record stride and the attributes
/// the shader reads from each record.
#[derive(Debug, Clone)]
pub struct VertexLayout {
    pub array_stride: u64,
    pub attributes: Vec<VertexAttribute>,
}

impl Vertex {
    /// The buffer layout every vertex record obeys.  The shader consumes
    /// three attributes: position at byte 0 (location 0), color at byte 8
    /// (location 1) and size at byte 24 (location 2).
    pub fn desc() -> (layout: VertexLayout)
        ensures
            layout.array_stride == VERTEX_STRIDE,
            layout.attributes@.len() == 3,
            layout.attributes@[0] == (VertexAttribute {
                offset: POSITION_OFFSET,
                shader_location: 0,
                format: AttributeFormat::Float32x2,
            }),
            layout.attributes@[1] == (VertexAttribute {
                offset: COLOR_OFFSET,
                shader_location: 1,
                format: AttributeFormat::Float32x4,
            }),
            layout.attributes@[2] == (VertexAttribute {
                offset: SIZE_OFFSET,
                shader_location: 2,
                format: AttributeFormat::Float32,
            }),
    {
        let mut attributes: Vec<VertexAttribute> = Vec::new();
        attributes.push(VertexAttribute {
            offset: POSITION_OFFSET,
            shader_location: 0,
            format: AttributeFormat::Float32x2,
        });
        attributes.push(VertexAttribute {
            offset: COLOR_OFFSET,
            shader_location: 1,
            format: AttributeFormat::Float32x4,
        });
        attributes.push(VertexAttribute {
            offset: SIZE_OFFSET,
            shader_location: 2,
            format: AttributeFormat::Float32,
        });
        VertexLayout { array_stride: VERTEX_STRIDE, attributes }
    }
}

/// The vertex record is exactly 40 bytes, word-aligned, and its three
/// attributes are packed back to back at the offsets the shader declares:
/// position at 0, color right after it at 8, size right after that at 24,
/// with the padding filling the record out to the stride.  Each offset is
/// four times the index its attribute's first word has in
/// `spec_vertex_words`.
pub proof fn lemma_vertex_record_layout()
    ensures
        VERTEX_STRIDE == 40,
        VERTEX_STRIDE % 4 == 0,
        VERTEX_STRIDE == 4 * WORDS_PER_VERTEX,
        COLOR_OFFSET == POSITION_OFFSET + AttributeFormat::Float32x2.spec_size(),
        SIZE_OFFSET == COLOR_OFFSET + AttributeFormat::Float32x4.spec_size(),
        SIZE_OFFSET + AttributeFormat::Float32.spec_size() <= VERTEX_STRIDE,
        POSITION_OFFSET == 4 * 0,
        COLOR_OFFSET == 4 * 2,
        SIZE_OFFSET == 4 * 6,
{
}

/// The ten words of one vertex record, in buffer order.
pub open spec fn spec_vertex_words(v: Vertex) -> Seq<u32> {
    seq![
        v.position[0],
        v.position[1],
        v.color[0],
        v.color[1],
        v.color[2],
        v.color[3],
        v.size,
        v._padding[0],
        v._padding[1],
        v._padding[2],
    ]
}

/// The words of a whole vertex sequence, record after record.
pub open spec fn spec_chart_words(vs: Seq<Vertex>) -> Seq<u32>
    decreases vs.len(),
{
    if vs.len() == 0 {
        Seq::empty()
    } else {
        spec_chart_words(vs.drop_last()) + spec_vertex_words(vs.last())
    }
}

/// A chart's buffer is never truncated and never padded beyond the
/// records: it holds exactly ten words — `VERTEX_STRIDE` bytes — per
/// vertex, whatever the vertex count.
pub proof fn lemma_chart_words_len(vs: Seq<Vertex>)
    ensures
        spec_chart_words(vs).len() == WORDS_PER_VERTEX * vs.len(),
        4 * spec_chart_words(vs).len() == VERTEX_STRIDE * vs.len(),
    decreases vs.len(),
{
    if vs.len() > 0 {
        lemma_chart_words_len(vs.drop_last());
    }
}

/// Relies on bytemuck::cast_slice: reinterpret a word slice as its
/// constituent bytes, four per word, in the machine's byte order.
#[verifier::external_body]
fn words_as_bytes(words: &[u32]) -> (bytes: Vec<u8>)
    ensures
        bytes@.len() == 4 * words@.len(),
{
    bytemuck::cast_slice::<u32, u8>(words).to_vec()
}

/// What the shader reads is where the chart put it: in the flattened
/// buffer, record `i`'s words stand at positions `10 i .. 10 i + 10`, so
/// with the stride of 40 bytes, vertex `i`'s position, color and size
/// attributes begin at the byte offsets `Vertex::desc` declares — 40 i
/// plus 0, 8 and 24.
pub proof fn lemma_chart_words_index(vs: Seq<Vertex>, i: int, j: int)
    requires
        0 <= i < vs.len(),
        0 <= j < WORDS_PER_VERTEX,
    ensures
        spec_chart_words(vs)[WORDS_PER_VERTEX * i + j] == spec_vertex_words(vs[i])[j],
    decreases vs.len(),
{
    lemma_chart_words_len(vs.drop_last());
    if i < vs.len() - 1 {
        lemma_chart_words_index(vs.drop_last(), i, j);
    }
}

/// An ordered collection of vertex records plus the viewport extents in
/// pixels, both encoded single-precision values.
#[derive(Debug, Clone)]
pub struct ChartData {
    pub vertices: Vec<Vertex>,
    pub viewport_width: u32,
    pub viewport_height: u32,
}

/// The color a chart uses: the given one, or the default blue.
pub open spec fn resolved_color(color: Option<Color>) -> Color {
    match color {
        Option::Some(c) => c,
        Option::None => Color { r: ENC_ZERO, g: ENC_HALF, b: ENC_ONE, a: ENC_ONE },
    }
}

/// The point size a chart uses: the given one, or 2.0 pixels.
pub open spec fn resolved_size(size: Option<u32>) -> u32 {
    match size {
        Option::Some(s) => s,
        Option::None => ENC_TWO,
    }
}

impl ChartData {
    pub fn new(width: u32, height: u32) -> (data: ChartData)
        ensures
            data.vertices@.len() == 0,
            data.viewport_width == width,
            data.viewport_height == height,
    {
        ChartData { vertices: Vec::new(), viewport_width: width, viewport_height: height }
    }

    /// Append one point with its color and size to the chart.
    pub fn add_point(&mut self, point: Point2D, color: Color, size: u32)
        ensures
            final(self).vertices@.len() == old(self).vertices@.len() + 1,
            final(self).vertices@.subrange(0, old(self).vertices@.len() as int) == old(
                self,
            ).vertices@,
            vertex_encodes(final(self).vertices@.last(), point.x, point.y, color, size),
            final(self).viewport_width == old(self).viewport_width,
            final(self).viewport_height == old(self).viewport_height,
    {
        self.vertices.push(Vertex::new(point, color, size));
        proof {
            assert(final(self).vertices@.subrange(0, old(self).vertices@.len() as int) =~= old(
                self,
            ).vertices@);
        }
    }

    /// Build a chart from two coordinate arrays whose entries are already
    /// normalized to the output range.  The arrays may differ in length; the
    /// chart holds one vertex per index the two arrays share, in order, so
    /// the vertex count is the length of the shorter array.  Every vertex
    /// carries the given color and size, or the defaults (the default blue,
    /// and 2.0 pixels) where none is given.
    pub fn from_normalized(
        xs: &Vec<u32>,
        ys: &Vec<u32>,
        color: Option<Color>,
        size: Option<u32>,
        width: u32,
        height: u32,
    ) -> (data: ChartData)
        ensures
            data.viewport_width == width,
            data.viewport_height == height,
            data.vertices@.len() == if xs@.len() <= ys@.len() {
                xs@.len()
            } else {
                ys@.len()
            },
            forall|i: int|
                0 <= i < data.vertices@.len() ==> vertex_encodes(
                    data.vertices@[i],
                    xs@[i],
                    ys@[i],
                    resolved_color(color),
                    resolved_size(size),
                ),
    {
        let mut data = ChartData::new(width, height);
        let used_color = match color {
            Option::Some(c) => c,
            Option::None => Color::default(),
        };
        let used_size = match size {
            Option::Some(s) => s,
            Option::None => ENC_TWO,
        };
        let n: usize = if xs.len() <= ys.len() {
            xs.len()
        } else {
            ys.len()
        };
        let mut i: usize = 0;
        while i < n
            invariant
                n <= xs@.len(),
                n <= ys@.len(),
                i <= n,
                used_color == resolved_color(color),
                used_size == resolved_size(size),
                data.viewport_width == width,
                data.viewport_height == height,
                data.vertices@.len() == i,
                forall|j: int|
                    0 <= j < i ==> vertex_encodes(
                        data.vertices@[j],
                        xs@[j],
                        ys@[j],
                        resolved_color(color),
                        resolved_size(size),
                    ),
            decreases n - i,
        {
            data.add_point(Point2D::new(xs[i], ys[i]), used_color, used_size);
            i = i + 1;
        }
        data
    }

    /// The raw bytes of this chart's vertex buffer, as uploaded to the
    /// GPU: `VERTEX_STRIDE` bytes per vertex record.
    pub fn vertex_bytes(&self) -> (bytes: Vec<u8>)
        ensures
            bytes@.len() == VERTEX_STRIDE * self.vertices@.len(),
    {
        let words = self.vertex_words();
        words_as_bytes(words.as_slice())
    }

    /// The buffer words of this chart's vertices, record after record.
    pub fn vertex_words(&self) -> (words: Vec<u32>)
        ensures
            words@ == spec_chart_words(self.vertices@),
            words@.len() == WORDS_PER_VERTEX * self.vertices@.len(),
    {
        let mut words: Vec<u32> = Vec::new();
        let mut i: usize = 0;
        while i < self.vertices.len()
            invariant
                i <= self.vertices@.len(),
                words@ == spec_chart_words(self.vertices@.take(i as int)),
                words@.len() == WORDS_PER_VERTEX * i,
            decreases self.vertices@.len() - i,
        {
            let v = &self.vertices[i];
            words.push(v.position[0]);
            words.push(v.position[1]);
            words.push(v.color[0]);
            words.push(v.color[1]);
            words.push(v.color[2]);
            words.push(v.color[3]);
            words.push(v.size);
            words.push(v._padding[0]);
            words.push(v._padding[1]);
            words.push(v._padding[2]);
            i = i + 1;
            proof {
                let taken = self.vertices@.take(i as int);
                assert(taken.drop_last() =~= self.vertices@.take(i as int - 1));
                assert(words@ =~= spec_chart_words(taken.drop_last()) + spec_vertex_words(
                    taken.last(),
                ));
            }
        }
        proof {
            assert(self.vertices@.take(self.vertices@.len() as int) =~= self.vertices@);
        }
        words
    }
}

} // verus!
