use vstd::prelude::*;

verus! {

/// What is done with the contents of a target at the beginning of a render pass.
///
/// Each variant stands for the integer code that the GPU library uses for it;
/// [`code`](Self::code) gives that code.
#[allow(non_camel_case_types)]
#[derive(Clone, Copy, PartialEq, Eq, Structural, Debug)]
pub enum LoadOp {
    /// Loads the contents currently in the texture.
    Load,
    /// Clears the texture to a single value.
    Clear,
    /// The driver may do whatever it wants with the memory.
    DontCare,
}

impl LoadOp {
    /// The integer code of this value in the GPU library's records.
    pub open spec fn spec_code(&self) -> i32 {
        match self {
            LoadOp::Load => 0,
            LoadOp::Clear => 1,
            LoadOp::DontCare => 2,
        }
    }

    /// The integer code of this value in the GPU library's records.
    #[verifier::when_used_as_spec(spec_code)]
    pub fn code(&self) -> (r: i32)
        ensures
            r == self.spec_code(),
    {
        match self {
            LoadOp::Load => 0,
            LoadOp::Clear => 1,
            LoadOp::DontCare => 2,
        }
    }
}

/// What is done with the results of a render pass.
///
/// Each variant stands for the integer code that the GPU library uses for it;
/// [`code`](Self::code) gives that code.
#[allow(non_camel_case_types)]
#[derive(Clone, Copy, PartialEq, Eq, Structural, Debug)]
pub enum StoreOp {
    /// Stores the results in the texture.
    Store,
    /// The driver may do whatever it wants with the results.
    DontCare,
    /// Resolves a multisample texture into the resolve texture, then discards the multisample contents.
    Resolve,
    /// Resolves a multisample texture into the resolve texture and stores the multisample contents.
    ResolveAndStore,
}

impl StoreOp {
    /// The integer code of this value in the GPU library's records.
    pub open spec fn spec_code(&self) -> i32 {
        match self {
            StoreOp::Store => 0,
            StoreOp::DontCare => 1,
            StoreOp::Resolve => 2,
            StoreOp::ResolveAndStore => 3,
        }
    }

    /// The integer code of this value in the GPU library's records.
    #[verifier::when_used_as_spec(spec_code)]
    pub fn code(&self) -> (r: i32)
        ensures
            r == self.spec_code(),
    {
        match self {
            StoreOp::Store => 0,
            StoreOp::DontCare => 1,
            StoreOp::Resolve => 2,
            StoreOp::ResolveAndStore => 3,
        }
    }
}

/// The base dimensionality of a texture.
///
/// Each variant stands for the integer code that the GPU library uses for it;
/// [`code`](Self::code) gives that code.
#[allow(non_camel_case_types)]
#[derive(Clone, Copy, PartialEq, Eq, Structural, Debug)]
pub enum TextureType {
    /// A two-dimensional texture.
    _2D,
    /// An array of two-dimensional textures.
    _2DArray,
    /// A three-dimensional texture.
    _3D,
    /// A cube map texture.
    Cube,
    /// An array of cube map textures.
    CubeArray,
}

impl TextureType {
    /// The integer code of this value in the GPU library's records.
    pub open spec fn spec_code(&self) -> i32 {
        match self {
            TextureType::_2D => 0,
            TextureType::_2DArray => 1,
            TextureType::_3D => 2,
            TextureType::Cube => 3,
            TextureType::CubeArray => 4,
        }
    }

    /// The integer code of this value in the GPU library's records.
    #[verifier::when_used_as_spec(spec_code)]
    pub fn code(&self) -> (r: i32)
        ensures
            r == self.spec_code(),
    {
        match self {
            TextureType::_2D => 0,
            TextureType::_2DArray => 1,
            TextureType::_3D => 2,
            TextureType::Cube => 3,
            TextureType::CubeArray => 4,
        }
    }
}

/// The number of samples per texel of a render target.
///
/// Each variant stands for the integer code that the GPU library uses for it;
/// [`code`](Self::code) gives that code.
#[allow(non_camel_case_types)]
#[derive(Clone, Copy, PartialEq, Eq, Structural, Debug)]
pub enum SampleCount {
    /// One sample per texel.
    NoMultiSampling,
    /// Two samples per texel.
    MSAA2x,
    /// Four samples per texel.
    MSAA4x,
    /// Eight samples per texel.
    MSAA8x,
}

impl SampleCount {
    /// The integer code of this value in the GPU library's records.
    pub open spec fn spec_code(&self) -> i32 {
        match self {
            SampleCount::NoMultiSampling => 0,
            SampleCount::MSAA2x => 1,
            SampleCount::MSAA4x => 2,
            SampleCount::MSAA8x => 3,
        }
    }

    /// The integer code of this value in the GPU library's records.
    #[verifier::when_used_as_spec(spec_code)]
    pub fn code(&self) -> (r: i32)
        ensures
            r == self.spec_code(),
    {
        match self {
            SampleCount::NoMultiSampling => 0,
            SampleCount::MSAA2x => 1,
            SampleCount::MSAA4x => 2,
            SampleCount::MSAA8x => 3,
        }
    }
}

/// The filter applied to texture lookups.
///
/// Each variant stands for the integer code that the GPU library uses for it;
/// [`code`](Self::code) gives that code.
#[allow(non_camel_case_types)]
#[derive(Clone, Copy, PartialEq, Eq, Structural, Debug)]
pub enum Filter {
    /// Point filtering.
    Nearest,
    /// Linear filtering.
    Linear,
}

impl Filter {
    /// The integer code of this value in the GPU library's records.
    pub open spec fn spec_code(&self) -> i32 {
        match self {
            Filter::Nearest => 0,
            Filter::Linear => 1,
        }
    }

    /// The integer code of this value in the GPU library's records.
    #[verifier::when_used_as_spec(spec_code)]
    pub fn code(&self) -> (r: i32)
        ensures
            r == self.spec_code(),
    {
        match self {
            Filter::Nearest => 0,
            Filter::Linear => 1,
        }
    }
}

/// The filter applied between mipmap levels.
///
/// Each variant stands for the integer code that the GPU library uses for it;
/// [`code`](Self::code) gives that code.
#[allow(non_camel_case_types)]
#[derive(Clone, Copy, PartialEq, Eq, Structural, Debug)]
pub enum SamplerMipmapMode {
    /// Point filtering.
    Nearest,
    /// Linear filtering.
    Linear,
}

impl SamplerMipmapMode {
    /// The integer code of this value in the GPU library's records.
    pub open spec fn spec_code(&self) -> i32 {
        match self {
            SamplerMipmapMode::Nearest => 0,
            SamplerMipmapMode::Linear => 1,
        }
    }

    /// The integer code of this value in the GPU library's records.
    #[verifier::when_used_as_spec(spec_code)]
    pub fn code(&self) -> (r: i32)
        ensures
            r == self.spec_code(),
    {
        match self {
            SamplerMipmapMode::Nearest => 0,
            SamplerMipmapMode::Linear => 1,
        }
    }
}

/// How texture coordinates outside [0, 1) are handled.
///
/// Each variant stands for the integer code that the GPU library uses for it;
/// [`code`](Self::code) gives that code.
#[allow(non_camel_case_types)]
#[derive(Clone, Copy, PartialEq, Eq, Structural, Debug)]
pub enum SamplerAddressMode {
    /// The texture repeats.
    Repeat,
    /// The texture repeats, mirrored on each repetition.
    MirroredRepeat,
    /// Coordinates are clamped to the edge.
    ClampToEdge,
}

impl SamplerAddressMode {
    /// The integer code of this value in the GPU library's records.
    pub open spec fn spec_code(&self) -> i32 {
        match self {
            SamplerAddressMode::Repeat => 0,
            SamplerAddressMode::MirroredRepeat => 1,
            SamplerAddressMode::ClampToEdge => 2,
        }
    }

    /// The integer code of this value in the GPU library's records.
    #[verifier::when_used_as_spec(spec_code)]
    pub fn code(&self) -> (r: i32)
        ensures
            r == self.spec_code(),
    {
        match self {
            SamplerAddressMode::Repeat => 0,
            SamplerAddressMode::MirroredRepeat => 1,
            SamplerAddressMode::ClampToEdge => 2,
        }
    }
}

/// A comparison operator for depth, stencil and sampler tests.
///
/// Each variant stands for the integer code that the GPU library uses for it;
/// [`code`](Self::code) gives that code.
#[allow(non_camel_case_types)]
#[derive(Clone, Copy, PartialEq, Eq, Structural, Debug)]
pub enum CompareOp {
    /// No operator.
    Invalid,
    /// The comparison always fails.
    Never,
    /// Passes when the new value is less than the old one.
    Less,
    /// Passes when the values are equal.
    Equal,
    /// Passes when the new value is less than or equal to the old one.
    LessOrEqual,
    /// Passes when the new value is greater than the old one.
    Greater,
    /// Passes when the values differ.
    NotEqual,
    /// Passes when the new value is greater than or equal to the old one.
    GreaterOrEqual,
    /// The comparison always passes.
    Always,
}

impl CompareOp {
    /// The integer code of this value in the GPU library's records.
    pub open spec fn spec_code(&self) -> i32 {
        match self {
            CompareOp::Invalid => 0,
            CompareOp::Never => 1,
            CompareOp::Less => 2,
            CompareOp::Equal => 3,
            CompareOp::LessOrEqual => 4,
            CompareOp::Greater => 5,
            CompareOp::NotEqual => 6,
            CompareOp::GreaterOrEqual => 7,
            CompareOp::Always => 8,
        }
    }

    /// The integer code of this value in the GPU library's records.
    #[verifier::when_used_as_spec(spec_code)]
    pub fn code(&self) -> (r: i32)
        ensures
            r == self.spec_code(),
    {
        match self {
            CompareOp::Invalid => 0,
            CompareOp::Never => 1,
            CompareOp::Less => 2,
            CompareOp::Equal => 3,
            CompareOp::LessOrEqual => 4,
            CompareOp::Greater => 5,
            CompareOp::NotEqual => 6,
            CompareOp::GreaterOrEqual => 7,
            CompareOp::Always => 8,
        }
    }
}

/// Whether vertex attribute addressing follows the vertex or the instance index.
///
/// Each variant stands for the integer code that the GPU library uses for it;
/// [`code`](Self::code) gives that code.
#[allow(non_camel_case_types)]
#[derive(Clone, Copy, PartialEq, Eq, Structural, Debug)]
pub enum VertexInputRate {
    /// Addressing follows the vertex index.
    Vertex,
    /// Addressing follows the instance index.
    Instance,
}

impl VertexInputRate {
    /// The integer code of this value in the GPU library's records.
    pub open spec fn spec_code(&self) -> i32 {
        match self {
            VertexInputRate::Vertex => 0,
            VertexInputRate::Instance => 1,
        }
    }

    /// The integer code of this value in the GPU library's records.
    #[verifier::when_used_as_spec(spec_code)]
    pub fn code(&self) -> (r: i32)
        ensures
            r == self.spec_code(),
    {
        match self {
            VertexInputRate::Vertex => 0,
            VertexInputRate::Instance => 1,
        }
    }
}

/// Whether polygons are filled or drawn as lines.
///
/// Each variant stands for the integer code that the GPU library uses for it;
/// [`code`](Self::code) gives that code.
#[allow(non_camel_case_types)]
#[derive(Clone, Copy, PartialEq, Eq, Structural, Debug)]
pub enum FillMode {
    /// Polygons are filled.
    Fill,
    /// Polygon edges are drawn as lines.
    Line,
}

impl FillMode {
    /// The integer code of this value in the GPU library's records.
    pub open spec fn spec_code(&self) -> i32 {
        match self {
            FillMode::Fill => 0,
            FillMode::Line => 1,
        }
    }

    /// The integer code of this value in the GPU library's records.
    #[verifier::when_used_as_spec(spec_code)]
    pub fn code(&self) -> (r: i32)
        ensures
            r == self.spec_code(),
    {
        match self {
            FillMode::Fill => 0,
            FillMode::Line => 1,
        }
    }
}

/// Which triangle faces are culled.
///
/// Each variant stands for the integer code that the GPU library uses for it;
/// [`code`](Self::code) gives that code.
#[allow(non_camel_case_types)]
#[derive(Clone, Copy, PartialEq, Eq, Structural, Debug)]
pub enum CullMode {
    /// No triangles are culled.
    NoCull,
    /// Front-facing triangles are culled.
    Front,
    /// Back-facing triangles are culled.
    Back,
}

impl CullMode {
    /// The integer code of this value in the GPU library's records.
    pub open spec fn spec_code(&self) -> i32 {
        match self {
            CullMode::NoCull => 0,
            CullMode::Front => 1,
            CullMode::Back => 2,
        }
    }

    /// The integer code of this value in the GPU library's records.
    #[verifier::when_used_as_spec(spec_code)]
    pub fn code(&self) -> (r: i32)
        ensures
            r == self.spec_code(),
    {
        match self {
            CullMode::NoCull => 0,
            CullMode::Front => 1,
            CullMode::Back => 2,
        }
    }
}

/// The vertex winding that makes a triangle front-facing.
///
/// Each variant stands for the integer code that the GPU library uses for it;
/// [`code`](Self::code) gives that code.
#[allow(non_camel_case_types)]
#[derive(Clone, Copy, PartialEq, Eq, Structural, Debug)]
pub enum FrontFace {
    /// Counter-clockwise winding is front-facing.
    CounterClockwise,
    /// Clockwise winding is front-facing.
    Clockwise,
}

impl FrontFace {
    /// The integer code of this value in the GPU library's records.
    pub open spec fn spec_code(&self) -> i32 {
        match self {
            FrontFace::CounterClockwise => 0,
            FrontFace::Clockwise => 1,
        }
    }

    /// The integer code of this value in the GPU library's records.
    #[verifier::when_used_as_spec(spec_code)]
    pub fn code(&self) -> (r: i32)
        ensures
            r == self.spec_code(),
    {
        match self {
            FrontFace::CounterClockwise => 0,
            FrontFace::Clockwise => 1,
        }
    }
}

/// The action performed on a stencil value.
///
/// Each variant stands for the integer code that the GPU library uses for it;
/// [`code`](Self::code) gives that code.
#[allow(non_camel_case_types)]
#[derive(Clone, Copy, PartialEq, Eq, Structural, Debug)]
pub enum StencilOp {
    /// No action.
    Invalid,
    /// Keeps the current value.
    Keep,
    /// Sets the value to zero.
    Zero,
    /// Sets the value to the reference value.
    Replace,
    /// Increments the value, clamping at the maximum.
    IncrementAndClamp,
    /// Decrements the value, clamping at zero.
    DecrementAndClamp,
    /// Inverts the bits of the value.
    Invert,
    /// Increments the value, wrapping to zero.
    IncrementAndWrap,
    /// Decrements the value, wrapping to the maximum.
    DecrementAndWrap,
}

impl StencilOp {
    /// The integer code of this value in the GPU library's records.
    pub open spec fn spec_code(&self) -> i32 {
        match self {
            StencilOp::Invalid => 0,
            StencilOp::Keep => 1,
            StencilOp::Zero => 2,
            StencilOp::Replace => 3,
            StencilOp::IncrementAndClamp => 4,
            StencilOp::DecrementAndClamp => 5,
            StencilOp::Invert => 6,
            StencilOp::IncrementAndWrap => 7,
            StencilOp::DecrementAndWrap => 8,
        }
    }

    /// The integer code of this value in the GPU library's records.
    #[verifier::when_used_as_spec(spec_code)]
    pub fn code(&self) -> (r: i32)
        ensures
            r == self.spec_code(),
    {
        match self {
            StencilOp::Invalid => 0,
            StencilOp::Keep => 1,
            StencilOp::Zero => 2,
            StencilOp::Replace => 3,
            StencilOp::IncrementAndClamp => 4,
            StencilOp::DecrementAndClamp => 5,
            StencilOp::Invert => 6,
            StencilOp::IncrementAndWrap => 7,
            StencilOp::DecrementAndWrap => 8,
        }
    }
}

/// A factor that a source or destination value is multiplied by when blending.
///
/// Each variant stands for the integer code that the GPU library uses for it;
/// [`code`](Self::code) gives that code.
#[allow(non_camel_case_types)]
#[derive(Clone, Copy, PartialEq, Eq, Structural, Debug)]
pub enum BlendFactor {
    Invalid,
    Zero,
    One,
    SrcColor,
    OneMinusSrcColor,
    DstColor,
    OneMinusDstColor,
    SrcAlpha,
    OneMinusSrcAlpha,
    DstAlpha,
    OneMinusDstAlpha,
    ConstantColor,
    OneMinusConstantColor,
    SrcAlphaSaturate,
}

impl BlendFactor {
    /// The integer code of this value in the GPU library's records.
    pub open spec fn spec_code(&self) -> i32 {
        match self {
            BlendFactor::Invalid => 0,
            BlendFactor::Zero => 1,
            BlendFactor::One => 2,
            BlendFactor::SrcColor => 3,
            BlendFactor::OneMinusSrcColor => 4,
            BlendFactor::DstColor => 5,
            BlendFactor::OneMinusDstColor => 6,
            BlendFactor::SrcAlpha => 7,
            BlendFactor::OneMinusSrcAlpha => 8,
            BlendFactor::DstAlpha => 9,
            BlendFactor::OneMinusDstAlpha => 10,
            BlendFactor::ConstantColor => 11,
            BlendFactor::OneMinusConstantColor => 12,
            BlendFactor::SrcAlphaSaturate => 13,
        }
    }

    /// The integer code of this value in the GPU library's records.
    #[verifier::when_used_as_spec(spec_code)]
    pub fn code(&self) -> (r: i32)
        ensures
            r == self.spec_code(),
    {
        match self {
            BlendFactor::Invalid => 0,
            BlendFactor::Zero => 1,
            BlendFactor::One => 2,
            BlendFactor::SrcColor => 3,
            BlendFactor::OneMinusSrcColor => 4,
            BlendFactor::DstColor => 5,
            BlendFactor::OneMinusDstColor => 6,
            BlendFactor::SrcAlpha => 7,
            BlendFactor::OneMinusSrcAlpha => 8,
            BlendFactor::DstAlpha => 9,
            BlendFactor::OneMinusDstAlpha => 10,
            BlendFactor::ConstantColor => 11,
            BlendFactor::OneMinusConstantColor => 12,
            BlendFactor::SrcAlphaSaturate => 13,
        }
    }
}

/// The operator that combines source and destination values when blending.
///
/// Each variant stands for the integer code that the GPU library uses for it;
/// [`code`](Self::code) gives that code.
#[allow(non_camel_case_types)]
#[derive(Clone, Copy, PartialEq, Eq, Structural, Debug)]
pub enum BlendOp {
    Invalid,
    Add,
    Subtract,
    ReverseSubtract,
    Min,
    Max,
}

impl BlendOp {
    /// The integer code of this value in the GPU library's records.
    pub open spec fn spec_code(&self) -> i32 {
        match self {
            BlendOp::Invalid => 0,
            BlendOp::Add => 1,
            BlendOp::Subtract => 2,
            BlendOp::ReverseSubtract => 3,
            BlendOp::Min => 4,
            BlendOp::Max => 5,
        }
    }

    /// The integer code of this value in the GPU library's records.
    #[verifier::when_used_as_spec(spec_code)]
    pub fn code(&self) -> (r: i32)
        ensures
            r == self.spec_code(),
    {
        match self {
            BlendOp::Invalid => 0,
            BlendOp::Add => 1,
            BlendOp::Subtract => 2,
            BlendOp::ReverseSubtract => 3,
            BlendOp::Min => 4,
            BlendOp::Max => 5,
        }
    }
}

/// The size and type of a vertex attribute.
///
/// Each variant stands for the integer code that the GPU library uses for it;
/// [`code`](Self::code) gives that code.
#[allow(non_camel_case_types)]
#[derive(Clone, Copy, PartialEq, Eq, Structural, Debug)]
pub enum VertexElementFormat {
    Invalid,
    Int,
    Int2,
    Int3,
    Int4,
    Uint,
    Uint2,
    Uint3,
    Uint4,
    Float,
    Float2,
    Float3,
    Float4,
    Byte2,
    Byte4,
    Ubyte2,
    Ubyte4,
    Byte2Norm,
    Byte4Norm,
    Ubyte2Norm,
    Ubyte4Norm,
    Short2,
    Short4,
    Ushort2,
    Ushort4,
    Short2Norm,
    Short4Norm,
    Ushort2Norm,
    Ushort4Norm,
    Half2,
    Half4,
}

impl VertexElementFormat {
    /// The integer code of this value in the GPU library's records.
    pub open spec fn spec_code(&self) -> i32 {
        match self {
            VertexElementFormat::Invalid => 0,
            VertexElementFormat::Int => 1,
            VertexElementFormat::Int2 => 2,
            VertexElementFormat::Int3 => 3,
            VertexElementFormat::Int4 => 4,
            VertexElementFormat::Uint => 5,
            VertexElementFormat::Uint2 => 6,
            VertexElementFormat::Uint3 => 7,
            VertexElementFormat::Uint4 => 8,
            VertexElementFormat::Float => 9,
            VertexElementFormat::Float2 => 10,
            VertexElementFormat::Float3 => 11,
            VertexElementFormat::Float4 => 12,
            VertexElementFormat::Byte2 => 13,
            VertexElementFormat::Byte4 => 14,
            VertexElementFormat::Ubyte2 => 15,
            VertexElementFormat::Ubyte4 => 16,
            VertexElementFormat::Byte2Norm => 17,
            VertexElementFormat::Byte4Norm => 18,
            VertexElementFormat::Ubyte2Norm => 19,
            VertexElementFormat::Ubyte4Norm => 20,
            VertexElementFormat::Short2 => 21,
            VertexElementFormat::Short4 => 22,
            VertexElementFormat::Ushort2 => 23,
            VertexElementFormat::Ushort4 => 24,
            VertexElementFormat::Short2Norm => 25,
            VertexElementFormat::Short4Norm => 26,
            VertexElementFormat::Ushort2Norm => 27,
            VertexElementFormat::Ushort4Norm => 28,
            VertexElementFormat::Half2 => 29,
            VertexElementFormat::Half4 => 30,
        }
    }

    /// The integer code of this value in the GPU library's records.
    #[verifier::when_used_as_spec(spec_code)]
    pub fn code(&self) -> (r: i32)
        ensures
            r == self.spec_code(),
    {
        match self {
            VertexElementFormat::Invalid => 0,
            VertexElementFormat::Int => 1,
            VertexElementFormat::Int2 => 2,
            VertexElementFormat::Int3 => 3,
            VertexElementFormat::Int4 => 4,
            VertexElementFormat::Uint => 5,
            VertexElementFormat::Uint2 => 6,
            VertexElementFormat::Uint3 => 7,
            VertexElementFormat::Uint4 => 8,
            VertexElementFormat::Float => 9,
            VertexElementFormat::Float2 => 10,
            VertexElementFormat::Float3 => 11,
            VertexElementFormat::Float4 => 12,
            VertexElementFormat::Byte2 => 13,
            VertexElementFormat::Byte4 => 14,
            VertexElementFormat::Ubyte2 => 15,
            VertexElementFormat::Ubyte4 => 16,
            VertexElementFormat::Byte2Norm => 17,
            VertexElementFormat::Byte4Norm => 18,
            VertexElementFormat::Ubyte2Norm => 19,
            VertexElementFormat::Ubyte4Norm => 20,
            VertexElementFormat::Short2 => 21,
            VertexElementFormat::Short4 => 22,
            VertexElementFormat::Ushort2 => 23,
            VertexElementFormat::Ushort4 => 24,
            VertexElementFormat::Short2Norm => 25,
            VertexElementFormat::Short4Norm => 26,
            VertexElementFormat::Ushort2Norm => 27,
            VertexElementFormat::Ushort4Norm => 28,
            VertexElementFormat::Half2 => 29,
            VertexElementFormat::Half4 => 30,
        }
    }
}

/// The pixel format of a texture, held as the GPU library's integer code.
#[derive(Clone, Copy, PartialEq, Eq, Structural, Debug)]
pub struct TextureFormat(pub i32);

/// How a texture is meant to be used: the GPU library's usage bits, which may be
/// combined with `|` on the inner value.
#[derive(Clone, Copy, PartialEq, Eq, Structural, Debug)]
pub struct TextureUsage(pub u32);

/// Which of the red, green, blue and alpha components are written: the GPU library's
/// component bits.
#[derive(Clone, Copy, PartialEq, Eq, Structural, Debug)]
pub struct ColorComponentFlags(pub u8);

/// A GPU texture, known to this library by the handle that the GPU library gave it.
///
/// Descriptors record the handle only; the borrow they take of the value keeps it
/// alive for as long as the descriptor is.
pub struct Texture {
    raw: usize,
}

impl Texture {
    /// The handle of this resource.
    pub closed spec fn spec_ll(&self) -> usize {
        self.raw
    }

    /// Wraps the handle that the GPU library returned on creation.
    pub fn from_ll(raw: usize) -> (r: Texture)
        ensures
            r.ll() == raw,
    {
        Texture { raw }
    }

    /// The handle of this resource.
    #[verifier::when_used_as_spec(spec_ll)]
    pub fn ll(&self) -> (r: usize)
        ensures
            r == self.spec_ll(),
    {
        self.raw
    }
}

/// A GPU buffer, known to this library by the handle that the GPU library gave it.
///
/// Descriptors record the handle only; the borrow they take of the value keeps it
/// alive for as long as the descriptor is.
pub struct Buffer {
    raw: usize,
}

impl Buffer {
    /// The handle of this resource.
    pub closed spec fn spec_ll(&self) -> usize {
        self.raw
    }

    /// Wraps the handle that the GPU library returned on creation.
    pub fn from_ll(raw: usize) -> (r: Buffer)
        ensures
            r.ll() == raw,
    {
        Buffer { raw }
    }

    /// The handle of this resource.
    #[verifier::when_used_as_spec(spec_ll)]
    pub fn ll(&self) -> (r: usize)
        ensures
            r == self.spec_ll(),
    {
        self.raw
    }
}

/// A GPU sampler, known to this library by the handle that the GPU library gave it.
///
/// Descriptors record the handle only; the borrow they take of the value keeps it
/// alive for as long as the descriptor is.
pub struct Sampler {
    raw: usize,
}

impl Sampler {
    /// The handle of this resource.
    pub closed spec fn spec_ll(&self) -> usize {
        self.raw
    }

    /// Wraps the handle that the GPU library returned on creation.
    pub fn from_ll(raw: usize) -> (r: Sampler)
        ensures
            r.ll() == raw,
    {
        Sampler { raw }
    }

    /// The handle of this resource.
    #[verifier::when_used_as_spec(spec_ll)]
    pub fn ll(&self) -> (r: usize)
        ensures
            r == self.spec_ll(),
    {
        self.raw
    }
}

/// A GPU transfer buffer, known to this library by the handle that the GPU library gave it.
///
/// Descriptors record the handle only; the borrow they take of the value keeps it
/// alive for as long as the descriptor is.
pub struct TransferBuffer {
    raw: usize,
}

impl TransferBuffer {
    /// The handle of this resource.
    pub closed spec fn spec_ll(&self) -> usize {
        self.raw
    }

    /// Wraps the handle that the GPU library returned on creation.
    pub fn from_ll(raw: usize) -> (r: TransferBuffer)
        ensures
            r.ll() == raw,
    {
        TransferBuffer { raw }
    }

    /// The handle of this resource.
    #[verifier::when_used_as_spec(spec_ll)]
    pub fn ll(&self) -> (r: usize)
        ensures
            r == self.spec_ll(),
    {
        self.raw
    }
}

/// The first variant of every enumeration has code zero, so a zero-filled record
/// names the first variant in each of its enumerated fields.
pub proof fn lemma_first_variants_have_code_zero()
    ensures
        LoadOp::Load.code() == 0,
        StoreOp::Store.code() == 0,
        TextureType::_2D.code() == 0,
        SampleCount::NoMultiSampling.code() == 0,
        Filter::Nearest.code() == 0,
        SamplerMipmapMode::Nearest.code() == 0,
        SamplerAddressMode::Repeat.code() == 0,
        CompareOp::Invalid.code() == 0,
        VertexInputRate::Vertex.code() == 0,
        FillMode::Fill.code() == 0,
        CullMode::NoCull.code() == 0,
        FrontFace::CounterClockwise.code() == 0,
        StencilOp::Invalid.code() == 0,
        BlendFactor::Invalid.code() == 0,
        BlendOp::Invalid.code() == 0,
        VertexElementFormat::Invalid.code() == 0,
{
}

} // verus!
