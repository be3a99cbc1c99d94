//! Descriptors: values that collect the parameters of one GPU library call and
//! hand them over as the record that the call reads.
//!
//! A descriptor starts zero-filled, which the GPU library reads as its defaults, and
//! each `with_` method sets one field and leaves the others as they were. No
//! combination of fields is checked here: the GPU library checks them when it
//! consumes the record. Descriptors that name a resource borrow it, so the resource
//! outlives every use of the descriptor.
use std::marker::PhantomData;
use vstd::prelude::*;

use crate::gpu::{
    BlendFactor, BlendOp, Buffer, ColorComponentFlags, CompareOp, CullMode, FillMode, Filter,
    FrontFace, LoadOp, SampleCount, Sampler, SamplerAddressMode, SamplerMipmapMode, StencilOp,
    StoreOp, Texture, TextureFormat, TextureType, TextureUsage, TransferBuffer,
    VertexElementFormat, VertexInputRate,
};
use crate::pixels::Color;

verus! {

/// The record that the GPU library reads for a [`DepthStencilTargetInfo`], field for field.
///
/// Enumerated fields hold their integer codes, floating-point fields the bit
/// patterns of their `f32` values, and resources their handles.
#[derive(Clone, Copy, PartialEq, Eq, Structural, Debug)]
pub struct RawDepthStencilTargetInfo {
    /// The handle of the depth-stencil texture; 0 for none.
    pub texture: usize,
    /// The depth to clear to, as the bit pattern of an `f32`.
    pub clear_depth: u32,
    /// The code of the depth load operation.
    pub load_op: i32,
    /// The code of the depth store operation.
    pub store_op: i32,
    /// The code of the stencil load operation.
    pub stencil_load_op: i32,
    /// The code of the stencil store operation.
    pub stencil_store_op: i32,
    /// Whether the texture is cycled.
    pub cycle: bool,
    /// The stencil value to clear to.
    pub clear_stencil: u8,
    /// The mip level used as the target.
    pub mip_level: u8,
    /// The layer index used as the target.
    pub layer: u8,
}

impl RawDepthStencilTargetInfo {
    /// The record with every field zero, false or empty.
    pub open spec fn zeroed() -> Self {
        RawDepthStencilTargetInfo {
            texture: 0,
            clear_depth: 0,
            load_op: 0,
            store_op: 0,
            stencil_load_op: 0,
            stencil_store_op: 0,
            cycle: false,
            clear_stencil: 0,
            mip_level: 0,
            layer: 0,
        }
    }
}

/// The parameters of a depth-stencil target used by a render pass.
///
/// Depth-stencil targets do not support multisample resolves.
pub struct DepthStencilTargetInfo<'a> {
    inner: RawDepthStencilTargetInfo,
    _marker: PhantomData<&'a Texture>,
}

impl<'a> View for DepthStencilTargetInfo<'a> {
    type V = RawDepthStencilTargetInfo;

    closed spec fn view(&self) -> RawDepthStencilTargetInfo {
        self.inner
    }
}

impl<'a> DepthStencilTargetInfo<'a> {
    /// A descriptor with every field zero, false or empty: the GPU library's defaults.
    pub fn new() -> (r: Self)
        ensures
            r@ == RawDepthStencilTargetInfo::zeroed(),
    {
        DepthStencilTargetInfo {
            inner: RawDepthStencilTargetInfo {
                texture: 0,
                clear_depth: 0,
                load_op: 0,
                store_op: 0,
                stencil_load_op: 0,
                stencil_store_op: 0,
                cycle: false,
                clear_stencil: 0,
                mip_level: 0,
                layer: 0,
            },
            _marker: PhantomData,
        }
    }

    /// The texture that will be used as the depth-stencil target by the render pass.
    pub fn with_texture(self, texture: &'a Texture) -> (r: Self)
        ensures
            r@ == (RawDepthStencilTargetInfo { texture: texture.ll(), ..self@ }),
    {
        let mut r = self;
        r.inner.texture = texture.ll();
        r
    }

    /// The depth to clear to at the beginning of the render pass, as the bit pattern of an `f32`. Ignored unless the load operation clears.
    pub fn with_clear_depth_bits(self, clear_depth: u32) -> (r: Self)
        ensures
            r@ == (RawDepthStencilTargetInfo { clear_depth: clear_depth, ..self@ }),
    {
        let mut r = self;
        r.inner.clear_depth = clear_depth;
        r
    }

    /// What is done with the depth contents at the beginning of the render pass.
    pub fn with_load_op(self, load_op: LoadOp) -> (r: Self)
        ensures
            r@ == (RawDepthStencilTargetInfo { load_op: load_op.code(), ..self@ }),
    {
        let mut r = self;
        r.inner.load_op = load_op.code();
        r
    }

    /// What is done with the depth results of the render pass.
    pub fn with_store_op(self, store_op: StoreOp) -> (r: Self)
        ensures
            r@ == (RawDepthStencilTargetInfo { store_op: store_op.code(), ..self@ }),
    {
        let mut r = self;
        r.inner.store_op = store_op.code();
        r
    }

    /// What is done with the stencil contents at the beginning of the render pass.
    pub fn with_stencil_load_op(self, stencil_load_op: LoadOp) -> (r: Self)
        ensures
            r@ == (RawDepthStencilTargetInfo { stencil_load_op: stencil_load_op.code(), ..self@ }),
    {
        let mut r = self;
        r.inner.stencil_load_op = stencil_load_op.code();
        r
    }

    /// What is done with the stencil results of the render pass.
    pub fn with_stencil_store_op(self, stencil_store_op: StoreOp) -> (r: Self)
        ensures
            r@ == (RawDepthStencilTargetInfo { stencil_store_op: stencil_store_op.code(), ..self@ }),
    {
        let mut r = self;
        r.inner.stencil_store_op = stencil_store_op.code();
        r
    }

    /// `true` cycles the texture if it is bound and no load operation loads.
    pub fn with_cycle(self, cycle: bool) -> (r: Self)
        ensures
            r@ == (RawDepthStencilTargetInfo { cycle: cycle, ..self@ }),
    {
        let mut r = self;
        r.inner.cycle = cycle;
        r
    }

    /// The stencil value to clear to at the beginning of the render pass. Ignored unless the stencil load operation clears.
    pub fn with_clear_stencil(self, clear_stencil: u8) -> (r: Self)
        ensures
            r@ == (RawDepthStencilTargetInfo { clear_stencil: clear_stencil, ..self@ }),
    {
        let mut r = self;
        r.inner.clear_stencil = clear_stencil;
        r
    }

    /// The record as it stands, to hand to the GPU library.
    pub fn raw(&self) -> (r: &RawDepthStencilTargetInfo)
        ensures
            *r == self@,
    {
        &self.inner
    }
}

impl<'a> Default for DepthStencilTargetInfo<'a> {
    /// The same as [`new`](Self::new).
    fn default() -> (r: Self)
        ensures
            r@ == RawDepthStencilTargetInfo::zeroed(),
    {
        Self::new()
    }
}

/// The record that the GPU library reads for a [`ColorTargetInfo`], field for field.
///
/// Enumerated fields hold their integer codes, floating-point fields the bit
/// patterns of their `f32` values, and resources their handles.
#[derive(Clone, Copy, PartialEq, Eq, Structural, Debug)]
pub struct RawColorTargetInfo {
    /// The handle of the target texture; 0 for none.
    pub texture: usize,
    /// The mip level used as the target.
    pub mip_level: u32,
    /// The layer index, or the depth plane of a 3D texture.
    pub layer_or_depth_plane: u32,
    /// The color to clear to; each channel `c` is handed on as the intensity `c / 255`.
    pub clear_color: Color,
    /// The code of the load operation.
    pub load_op: i32,
    /// The code of the store operation.
    pub store_op: i32,
    /// The handle of the texture that receives a multisample resolve; 0 for none.
    pub resolve_texture: usize,
    /// The mip level of the resolve texture.
    pub resolve_mip_level: u32,
    /// The layer index of the resolve texture.
    pub resolve_layer: u32,
    /// Whether the texture is cycled.
    pub cycle: bool,
    /// Whether the resolve texture is cycled.
    pub cycle_resolve_texture: bool,
}

impl RawColorTargetInfo {
    /// The record with every field zero, false or empty.
    pub open spec fn zeroed() -> Self {
        RawColorTargetInfo {
            texture: 0,
            mip_level: 0,
            layer_or_depth_plane: 0,
            clear_color: Color { r: 0, g: 0, b: 0, a: 0 },
            load_op: 0,
            store_op: 0,
            resolve_texture: 0,
            resolve_mip_level: 0,
            resolve_layer: 0,
            cycle: false,
            cycle_resolve_texture: false,
        }
    }
}

/// The parameters of a color target used by a render pass.
pub struct ColorTargetInfo<'a> {
    inner: RawColorTargetInfo,
    _marker: PhantomData<&'a Texture>,
}

impl<'a> View for ColorTargetInfo<'a> {
    type V = RawColorTargetInfo;

    closed spec fn view(&self) -> RawColorTargetInfo {
        self.inner
    }
}

impl<'a> ColorTargetInfo<'a> {
    /// A descriptor with every field zero, false or empty: the GPU library's defaults.
    pub fn new() -> (r: Self)
        ensures
            r@ == RawColorTargetInfo::zeroed(),
    {
        ColorTargetInfo {
            inner: RawColorTargetInfo {
                texture: 0,
                mip_level: 0,
                layer_or_depth_plane: 0,
                clear_color: Color { r: 0, g: 0, b: 0, a: 0 },
                load_op: 0,
                store_op: 0,
                resolve_texture: 0,
                resolve_mip_level: 0,
                resolve_layer: 0,
                cycle: false,
                cycle_resolve_texture: false,
            },
            _marker: PhantomData,
        }
    }

    /// The texture that will be used as a color target by the render pass.
    pub fn with_texture(self, texture: &'a Texture) -> (r: Self)
        ensures
            r@ == (RawColorTargetInfo { texture: texture.ll(), ..self@ }),
    {
        let mut r = self;
        r.inner.texture = texture.ll();
        r
    }

    /// The mip level to use as the color target.
    pub fn with_mip_level(self, mip_level: u32) -> (r: Self)
        ensures
            r@ == (RawColorTargetInfo { mip_level: mip_level, ..self@ }),
    {
        let mut r = self;
        r.inner.mip_level = mip_level;
        r
    }

    /// The layer index on 2D array and cube textures, or the depth plane on 3D textures, to use as the color target.
    pub fn with_layer_or_depth_plane(self, layer_or_depth_plane: u32) -> (r: Self)
        ensures
            r@ == (RawColorTargetInfo { layer_or_depth_plane: layer_or_depth_plane, ..self@ }),
    {
        let mut r = self;
        r.inner.layer_or_depth_plane = layer_or_depth_plane;
        r
    }

    /// The color to clear the target to at the start of the render pass. Ignored unless the load operation clears.
    pub fn with_clear_color(self, clear_color: Color) -> (r: Self)
        ensures
            r@ == (RawColorTargetInfo { clear_color: clear_color, ..self@ }),
    {
        let mut r = self;
        r.inner.clear_color = clear_color;
        r
    }

    /// What is done with the contents of the target at the beginning of the render pass.
    pub fn with_load_op(self, load_op: LoadOp) -> (r: Self)
        ensures
            r@ == (RawColorTargetInfo { load_op: load_op.code(), ..self@ }),
    {
        let mut r = self;
        r.inner.load_op = load_op.code();
        r
    }

    /// What is done with the results of the render pass.
    pub fn with_store_op(self, store_op: StoreOp) -> (r: Self)
        ensures
            r@ == (RawColorTargetInfo { store_op: store_op.code(), ..self@ }),
    {
        let mut r = self;
        r.inner.store_op = store_op.code();
        r
    }

    /// The texture that receives the results of a multisample resolve. Ignored unless the store operation resolves.
    pub fn with_resolve_texture(self, resolve_texture: &'a Texture) -> (r: Self)
        ensures
            r@ == (RawColorTargetInfo { resolve_texture: resolve_texture.ll(), ..self@ }),
    {
        let mut r = self;
        r.inner.resolve_texture = resolve_texture.ll();
        r
    }

    /// The mip level of the resolve texture. Ignored unless the store operation resolves.
    pub fn with_resolve_mip_level(self, resolve_mip_level: u32) -> (r: Self)
        ensures
            r@ == (RawColorTargetInfo { resolve_mip_level: resolve_mip_level, ..self@ }),
    {
        let mut r = self;
        r.inner.resolve_mip_level = resolve_mip_level;
        r
    }

    /// The layer index of the resolve texture. Ignored unless the store operation resolves.
    pub fn with_resolve_layer(self, resolve_layer: u32) -> (r: Self)
        ensures
            r@ == (RawColorTargetInfo { resolve_layer: resolve_layer, ..self@ }),
    {
        let mut r = self;
        r.inner.resolve_layer = resolve_layer;
        r
    }

    /// `true` cycles the texture if it is bound and the load operation does not load.
    pub fn with_cycle(self, cycle: bool) -> (r: Self)
        ensures
            r@ == (RawColorTargetInfo { cycle: cycle, ..self@ }),
    {
        let mut r = self;
        r.inner.cycle = cycle;
        r
    }

    /// `true` cycles the resolve texture if it is bound. Ignored unless the store operation resolves.
    pub fn with_cycle_resolve_texture(self, cycle_resolve_texture: bool) -> (r: Self)
        ensures
            r@ == (RawColorTargetInfo { cycle_resolve_texture: cycle_resolve_texture, ..self@ }),
    {
        let mut r = self;
        r.inner.cycle_resolve_texture = cycle_resolve_texture;
        r
    }

    /// The record as it stands, to hand to the GPU library.
    pub fn raw(&self) -> (r: &RawColorTargetInfo)
        ensures
            *r == self@,
    {
        &self.inner
    }
}

impl<'a> Default for ColorTargetInfo<'a> {
    /// The same as [`new`](Self::new).
    fn default() -> (r: Self)
        ensures
            r@ == RawColorTargetInfo::zeroed(),
    {
        Self::new()
    }
}

/// The record that the GPU library reads for a [`TextureCreateInfo`], field for field.
///
/// Enumerated fields hold their integer codes, floating-point fields the bit
/// patterns of their `f32` values, and resources their handles.
#[derive(Clone, Copy, PartialEq, Eq, Structural, Debug)]
pub struct RawTextureCreateInfo {
    /// The code of the texture's dimensionality.
    pub texture_type: i32,
    /// The code of the pixel format.
    pub format: i32,
    /// The usage bits.
    pub usage: u32,
    /// The width.
    pub width: u32,
    /// The height.
    pub height: u32,
    /// The layer count, or the depth of a 3D texture.
    pub layer_count_or_depth: u32,
    /// The number of mip levels.
    pub num_levels: u32,
    /// The code of the sample count.
    pub sample_count: i32,
    /// The properties handle; 0 for none.
    pub props: u32,
}

impl RawTextureCreateInfo {
    /// The record with every field zero, false or empty.
    pub open spec fn zeroed() -> Self {
        RawTextureCreateInfo {
            texture_type: 0,
            format: 0,
            usage: 0,
            width: 0,
            height: 0,
            layer_count_or_depth: 0,
            num_levels: 0,
            sample_count: 0,
            props: 0,
        }
    }
}

/// The parameters of a texture to create.
pub struct TextureCreateInfo {
    inner: RawTextureCreateInfo,
}

impl View for TextureCreateInfo {
    type V = RawTextureCreateInfo;

    closed spec fn view(&self) -> RawTextureCreateInfo {
        self.inner
    }
}

impl TextureCreateInfo {
    /// A descriptor with every field zero, false or empty: the GPU library's defaults.
    pub fn new() -> (r: Self)
        ensures
            r@ == RawTextureCreateInfo::zeroed(),
    {
        TextureCreateInfo {
            inner: RawTextureCreateInfo {
                texture_type: 0,
                format: 0,
                usage: 0,
                width: 0,
                height: 0,
                layer_count_or_depth: 0,
                num_levels: 0,
                sample_count: 0,
                props: 0,
            },
        }
    }

    /// The base dimensionality of the texture.
    pub fn with_type(self, texture_type: TextureType) -> (r: Self)
        ensures
            r@ == (RawTextureCreateInfo { texture_type: texture_type.code(), ..self@ }),
    {
        let mut r = self;
        r.inner.texture_type = texture_type.code();
        r
    }

    /// The pixel format of the texture.
    pub fn with_format(self, format: TextureFormat) -> (r: Self)
        ensures
            r@ == (RawTextureCreateInfo { format: format.0, ..self@ }),
    {
        let mut r = self;
        r.inner.format = format.0;
        r
    }

    /// How the texture is intended to be used.
    pub fn with_usage(self, usage: TextureUsage) -> (r: Self)
        ensures
            r@ == (RawTextureCreateInfo { usage: usage.0, ..self@ }),
    {
        let mut r = self;
        r.inner.usage = usage.0;
        r
    }

    /// The width of the texture.
    pub fn with_width(self, width: u32) -> (r: Self)
        ensures
            r@ == (RawTextureCreateInfo { width: width, ..self@ }),
    {
        let mut r = self;
        r.inner.width = width;
        r
    }

    /// The height of the texture.
    pub fn with_height(self, height: u32) -> (r: Self)
        ensures
            r@ == (RawTextureCreateInfo { height: height, ..self@ }),
    {
        let mut r = self;
        r.inner.height = height;
        r
    }

    /// The layer count on 2D array textures, or the depth on 3D textures.
    pub fn with_layer_count_or_depth(self, layer_count_or_depth: u32) -> (r: Self)
        ensures
            r@ == (RawTextureCreateInfo { layer_count_or_depth: layer_count_or_depth, ..self@ }),
    {
        let mut r = self;
        r.inner.layer_count_or_depth = layer_count_or_depth;
        r
    }

    /// The number of mip levels in the texture.
    pub fn with_num_levels(self, num_levels: u32) -> (r: Self)
        ensures
            r@ == (RawTextureCreateInfo { num_levels: num_levels, ..self@ }),
    {
        let mut r = self;
        r.inner.num_levels = num_levels;
        r
    }

    /// The number of samples per texel; applies only to render targets.
    pub fn with_sample_count(self, sample_count: SampleCount) -> (r: Self)
        ensures
            r@ == (RawTextureCreateInfo { sample_count: sample_count.code(), ..self@ }),
    {
        let mut r = self;
        r.inner.sample_count = sample_count.code();
        r
    }

    /// The record as it stands, to hand to the GPU library.
    pub fn raw(&self) -> (r: &RawTextureCreateInfo)
        ensures
            *r == self@,
    {
        &self.inner
    }
}

impl Default for TextureCreateInfo {
    /// The same as [`new`](Self::new).
    fn default() -> (r: Self)
        ensures
            r@ == RawTextureCreateInfo::zeroed(),
    {
        Self::new()
    }
}

/// The record that the GPU library reads for a [`SamplerCreateInfo`], field for field.
///
/// Enumerated fields hold their integer codes, floating-point fields the bit
/// patterns of their `f32` values, and resources their handles.
#[derive(Clone, Copy, PartialEq, Eq, Structural, Debug)]
pub struct RawSamplerCreateInfo {
    /// The code of the minification filter.
    pub min_filter: i32,
    /// The code of the magnification filter.
    pub mag_filter: i32,
    /// The code of the mipmap filter.
    pub mipmap_mode: i32,
    /// The code of the addressing mode for U.
    pub address_mode_u: i32,
    /// The code of the addressing mode for V.
    pub address_mode_v: i32,
    /// The code of the addressing mode for W.
    pub address_mode_w: i32,
    /// The mipmap LOD bias, as the bit pattern of an `f32`.
    pub mip_lod_bias: u32,
    /// The anisotropy clamp, as the bit pattern of an `f32`.
    pub max_anisotropy: u32,
    /// The code of the comparison operator.
    pub compare_op: i32,
    /// The minimum LOD, as the bit pattern of an `f32`.
    pub min_lod: u32,
    /// The maximum LOD, as the bit pattern of an `f32`.
    pub max_lod: u32,
    /// Whether anisotropic filtering is on.
    pub enable_anisotropy: bool,
    /// Whether comparison against a reference value is on.
    pub enable_compare: bool,
    /// The properties handle; 0 for none.
    pub props: u32,
}

impl RawSamplerCreateInfo {
    /// The record with every field zero, false or empty.
    pub open spec fn zeroed() -> Self {
        RawSamplerCreateInfo {
            min_filter: 0,
            mag_filter: 0,
            mipmap_mode: 0,
            address_mode_u: 0,
            address_mode_v: 0,
            address_mode_w: 0,
            mip_lod_bias: 0,
            max_anisotropy: 0,
            compare_op: 0,
            min_lod: 0,
            max_lod: 0,
            enable_anisotropy: false,
            enable_compare: false,
            props: 0,
        }
    }
}

/// The parameters of a sampler to create.
pub struct SamplerCreateInfo {
    inner: RawSamplerCreateInfo,
}

impl View for SamplerCreateInfo {
    type V = RawSamplerCreateInfo;

    closed spec fn view(&self) -> RawSamplerCreateInfo {
        self.inner
    }
}

impl SamplerCreateInfo {
    /// A descriptor with every field zero, false or empty: the GPU library's defaults.
    pub fn new() -> (r: Self)
        ensures
            r@ == RawSamplerCreateInfo::zeroed(),
    {
        SamplerCreateInfo {
            inner: RawSamplerCreateInfo {
                min_filter: 0,
                mag_filter: 0,
                mipmap_mode: 0,
                address_mode_u: 0,
                address_mode_v: 0,
                address_mode_w: 0,
                mip_lod_bias: 0,
                max_anisotropy: 0,
                compare_op: 0,
                min_lod: 0,
                max_lod: 0,
                enable_anisotropy: false,
                enable_compare: false,
                props: 0,
            },
        }
    }

    /// The minification filter to apply to lookups.
    pub fn with_min_filter(self, filter: Filter) -> (r: Self)
        ensures
            r@ == (RawSamplerCreateInfo { min_filter: filter.code(), ..self@ }),
    {
        let mut r = self;
        r.inner.min_filter = filter.code();
        r
    }

    /// The magnification filter to apply to lookups.
    pub fn with_mag_filter(self, filter: Filter) -> (r: Self)
        ensures
            r@ == (RawSamplerCreateInfo { mag_filter: filter.code(), ..self@ }),
    {
        let mut r = self;
        r.inner.mag_filter = filter.code();
        r
    }

    /// The mipmap filter to apply to lookups.
    pub fn with_mipmap_mode(self, mode: SamplerMipmapMode) -> (r: Self)
        ensures
            r@ == (RawSamplerCreateInfo { mipmap_mode: mode.code(), ..self@ }),
    {
        let mut r = self;
        r.inner.mipmap_mode = mode.code();
        r
    }

    /// The addressing mode for U coordinates outside [0, 1).
    pub fn with_address_mode_u(self, mode: SamplerAddressMode) -> (r: Self)
        ensures
            r@ == (RawSamplerCreateInfo { address_mode_u: mode.code(), ..self@ }),
    {
        let mut r = self;
        r.inner.address_mode_u = mode.code();
        r
    }

    /// The addressing mode for V coordinates outside [0, 1).
    pub fn with_address_mode_v(self, mode: SamplerAddressMode) -> (r: Self)
        ensures
            r@ == (RawSamplerCreateInfo { address_mode_v: mode.code(), ..self@ }),
    {
        let mut r = self;
        r.inner.address_mode_v = mode.code();
        r
    }

    /// The addressing mode for W coordinates outside [0, 1).
    pub fn with_address_mode_w(self, mode: SamplerAddressMode) -> (r: Self)
        ensures
            r@ == (RawSamplerCreateInfo { address_mode_w: mode.code(), ..self@ }),
    {
        let mut r = self;
        r.inner.address_mode_w = mode.code();
        r
    }

    /// The bias added to the mipmap LOD calculation, as the bit pattern of an `f32`.
    pub fn with_mip_lod_bias_bits(self, mip_lod_bias: u32) -> (r: Self)
        ensures
            r@ == (RawSamplerCreateInfo { mip_lod_bias: mip_lod_bias, ..self@ }),
    {
        let mut r = self;
        r.inner.mip_lod_bias = mip_lod_bias;
        r
    }

    /// The anisotropy clamp, as the bit pattern of an `f32`. Ignored unless anisotropy is enabled.
    pub fn with_max_anisotropy_bits(self, max_anisotropy: u32) -> (r: Self)
        ensures
            r@ == (RawSamplerCreateInfo { max_anisotropy: max_anisotropy, ..self@ }),
    {
        let mut r = self;
        r.inner.max_anisotropy = max_anisotropy;
        r
    }

    /// The comparison operator applied to fetched data before filtering.
    pub fn with_compare_op(self, compare_op: CompareOp) -> (r: Self)
        ensures
            r@ == (RawSamplerCreateInfo { compare_op: compare_op.code(), ..self@ }),
    {
        let mut r = self;
        r.inner.compare_op = compare_op.code();
        r
    }

    /// The lower clamp of the computed LOD, as the bit pattern of an `f32`.
    pub fn with_min_lod_bits(self, min_lod: u32) -> (r: Self)
        ensures
            r@ == (RawSamplerCreateInfo { min_lod: min_lod, ..self@ }),
    {
        let mut r = self;
        r.inner.min_lod = min_lod;
        r
    }

    /// The upper clamp of the computed LOD, as the bit pattern of an `f32`.
    pub fn with_max_lod_bits(self, max_lod: u32) -> (r: Self)
        ensures
            r@ == (RawSamplerCreateInfo { max_lod: max_lod, ..self@ }),
    {
        let mut r = self;
        r.inner.max_lod = max_lod;
        r
    }

    /// True to enable anisotropic filtering.
    pub fn with_enable_anisotropy(self, enable_anisotropy: bool) -> (r: Self)
        ensures
            r@ == (RawSamplerCreateInfo { enable_anisotropy: enable_anisotropy, ..self@ }),
    {
        let mut r = self;
        r.inner.enable_anisotropy = enable_anisotropy;
        r
    }

    /// True to compare against a reference value during lookups.
    pub fn with_enable_compare(self, enable_compare: bool) -> (r: Self)
        ensures
            r@ == (RawSamplerCreateInfo { enable_compare: enable_compare, ..self@ }),
    {
        let mut r = self;
        r.inner.enable_compare = enable_compare;
        r
    }

    /// The record as it stands, to hand to the GPU library.
    pub fn raw(&self) -> (r: &RawSamplerCreateInfo)
        ensures
            *r == self@,
    {
        &self.inner
    }
}

impl Default for SamplerCreateInfo {
    /// The same as [`new`](Self::new).
    fn default() -> (r: Self)
        ensures
            r@ == RawSamplerCreateInfo::zeroed(),
    {
        Self::new()
    }
}

/// The record that the GPU library reads for a [`TextureRegion`], field for field.
///
/// Enumerated fields hold their integer codes, floating-point fields the bit
/// patterns of their `f32` values, and resources their handles.
#[derive(Clone, Copy, PartialEq, Eq, Structural, Debug)]
pub struct RawTextureRegion {
    /// The handle of the texture; 0 for none.
    pub texture: usize,
    /// The mip level.
    pub mip_level: u32,
    /// The layer index.
    pub layer: u32,
    /// The left offset.
    pub x: u32,
    /// The top offset.
    pub y: u32,
    /// The front offset.
    pub z: u32,
    /// The width.
    pub w: u32,
    /// The height.
    pub h: u32,
    /// The depth.
    pub d: u32,
}

impl RawTextureRegion {
    /// The record with every field zero, false or empty.
    pub open spec fn zeroed() -> Self {
        RawTextureRegion {
            texture: 0,
            mip_level: 0,
            layer: 0,
            x: 0,
            y: 0,
            z: 0,
            w: 0,
            h: 0,
            d: 0,
        }
    }
}

/// A region of a texture, used when transferring data to or from it.
pub struct TextureRegion<'a> {
    inner: RawTextureRegion,
    _marker: PhantomData<&'a Texture>,
}

impl<'a> View for TextureRegion<'a> {
    type V = RawTextureRegion;

    closed spec fn view(&self) -> RawTextureRegion {
        self.inner
    }
}

impl<'a> TextureRegion<'a> {
    /// A descriptor with every field zero, false or empty: the GPU library's defaults.
    pub fn new() -> (r: Self)
        ensures
            r@ == RawTextureRegion::zeroed(),
    {
        TextureRegion {
            inner: RawTextureRegion {
                texture: 0,
                mip_level: 0,
                layer: 0,
                x: 0,
                y: 0,
                z: 0,
                w: 0,
                h: 0,
                d: 0,
            },
            _marker: PhantomData,
        }
    }

    /// The texture used in the copy operation.
    pub fn with_texture(self, texture: &'a Texture) -> (r: Self)
        ensures
            r@ == (RawTextureRegion { texture: texture.ll(), ..self@ }),
    {
        let mut r = self;
        r.inner.texture = texture.ll();
        r
    }

    /// The mip level index to transfer.
    pub fn with_mip_level(self, mip_level: u32) -> (r: Self)
        ensures
            r@ == (RawTextureRegion { mip_level: mip_level, ..self@ }),
    {
        let mut r = self;
        r.inner.mip_level = mip_level;
        r
    }

    /// The layer index to transfer.
    pub fn with_layer(self, layer: u32) -> (r: Self)
        ensures
            r@ == (RawTextureRegion { layer: layer, ..self@ }),
    {
        let mut r = self;
        r.inner.layer = layer;
        r
    }

    /// The left offset of the region.
    pub fn with_x(self, x: u32) -> (r: Self)
        ensures
            r@ == (RawTextureRegion { x: x, ..self@ }),
    {
        let mut r = self;
        r.inner.x = x;
        r
    }

    /// The top offset of the region.
    pub fn with_y(self, y: u32) -> (r: Self)
        ensures
            r@ == (RawTextureRegion { y: y, ..self@ }),
    {
        let mut r = self;
        r.inner.y = y;
        r
    }

    /// The front offset of the region.
    pub fn with_z(self, z: u32) -> (r: Self)
        ensures
            r@ == (RawTextureRegion { z: z, ..self@ }),
    {
        let mut r = self;
        r.inner.z = z;
        r
    }

    /// The width of the region.
    pub fn with_width(self, width: u32) -> (r: Self)
        ensures
            r@ == (RawTextureRegion { w: width, ..self@ }),
    {
        let mut r = self;
        r.inner.w = width;
        r
    }

    /// The height of the region.
    pub fn with_height(self, height: u32) -> (r: Self)
        ensures
            r@ == (RawTextureRegion { h: height, ..self@ }),
    {
        let mut r = self;
        r.inner.h = height;
        r
    }

    /// The depth of the region.
    pub fn with_depth(self, depth: u32) -> (r: Self)
        ensures
            r@ == (RawTextureRegion { d: depth, ..self@ }),
    {
        let mut r = self;
        r.inner.d = depth;
        r
    }

    /// The record as it stands, to hand to the GPU library.
    pub fn raw(&self) -> (r: &RawTextureRegion)
        ensures
            *r == self@,
    {
        &self.inner
    }
}

impl<'a> Default for TextureRegion<'a> {
    /// The same as [`new`](Self::new).
    fn default() -> (r: Self)
        ensures
            r@ == RawTextureRegion::zeroed(),
    {
        Self::new()
    }
}

/// The record that the GPU library reads for a [`TextureTransferInfo`], field for field.
///
/// Enumerated fields hold their integer codes, floating-point fields the bit
/// patterns of their `f32` values, and resources their handles.
#[derive(Clone, Copy, PartialEq, Eq, Structural, Debug)]
pub struct RawTextureTransferInfo {
    /// The handle of the transfer buffer; 0 for none.
    pub transfer_buffer: usize,
    /// The starting byte of the image data.
    pub offset: u32,
    /// The number of pixels from one row to the next.
    pub pixels_per_row: u32,
    /// The number of rows from one layer to the next.
    pub rows_per_layer: u32,
}

impl RawTextureTransferInfo {
    /// The record with every field zero, false or empty.
    pub open spec fn zeroed() -> Self {
        RawTextureTransferInfo {
            transfer_buffer: 0,
            offset: 0,
            pixels_per_row: 0,
            rows_per_layer: 0,
        }
    }
}

/// Where texture data lies in a transfer buffer.
///
/// Where the row length or the rows per layer is zero, the size of the texture region
/// is used in its place and the data is taken as tightly packed.
pub struct TextureTransferInfo<'a> {
    inner: RawTextureTransferInfo,
    _marker: PhantomData<&'a TransferBuffer>,
}

impl<'a> View for TextureTransferInfo<'a> {
    type V = RawTextureTransferInfo;

    closed spec fn view(&self) -> RawTextureTransferInfo {
        self.inner
    }
}

impl<'a> TextureTransferInfo<'a> {
    /// A descriptor with every field zero, false or empty: the GPU library's defaults.
    pub fn new() -> (r: Self)
        ensures
            r@ == RawTextureTransferInfo::zeroed(),
    {
        TextureTransferInfo {
            inner: RawTextureTransferInfo {
                transfer_buffer: 0,
                offset: 0,
                pixels_per_row: 0,
                rows_per_layer: 0,
            },
            _marker: PhantomData,
        }
    }

    /// The transfer buffer used in the transfer operation.
    pub fn with_transfer_buffer(self, buffer: &'a TransferBuffer) -> (r: Self)
        ensures
            r@ == (RawTextureTransferInfo { transfer_buffer: buffer.ll(), ..self@ }),
    {
        let mut r = self;
        r.inner.transfer_buffer = buffer.ll();
        r
    }

    /// The starting byte of the image data in the transfer buffer.
    pub fn with_offset(self, offset: u32) -> (r: Self)
        ensures
            r@ == (RawTextureTransferInfo { offset: offset, ..self@ }),
    {
        let mut r = self;
        r.inner.offset = offset;
        r
    }

    /// The number of pixels from one row to the next.
    pub fn with_pixels_per_row(self, pixels_per_row: u32) -> (r: Self)
        ensures
            r@ == (RawTextureTransferInfo { pixels_per_row: pixels_per_row, ..self@ }),
    {
        let mut r = self;
        r.inner.pixels_per_row = pixels_per_row;
        r
    }

    /// The number of rows from one layer or depth slice to the next.
    pub fn with_rows_per_layer(self, rows_per_layer: u32) -> (r: Self)
        ensures
            r@ == (RawTextureTransferInfo { rows_per_layer: rows_per_layer, ..self@ }),
    {
        let mut r = self;
        r.inner.rows_per_layer = rows_per_layer;
        r
    }

    /// The record as it stands, to hand to the GPU library.
    pub fn raw(&self) -> (r: &RawTextureTransferInfo)
        ensures
            *r == self@,
    {
        &self.inner
    }
}

impl<'a> Default for TextureTransferInfo<'a> {
    /// The same as [`new`](Self::new).
    fn default() -> (r: Self)
        ensures
            r@ == RawTextureTransferInfo::zeroed(),
    {
        Self::new()
    }
}

/// The record that the GPU library reads for a [`BufferBinding`], field for field.
///
/// Enumerated fields hold their integer codes, floating-point fields the bit
/// patterns of their `f32` values, and resources their handles.
#[derive(Clone, Copy, PartialEq, Eq, Structural, Debug)]
pub struct RawBufferBinding {
    /// The handle of the buffer; 0 for none.
    pub buffer: usize,
    /// The starting byte.
    pub offset: u32,
}

impl RawBufferBinding {
    /// The record with every field zero, false or empty.
    pub open spec fn zeroed() -> Self {
        RawBufferBinding {
            buffer: 0,
            offset: 0,
        }
    }
}

/// The parameters of a buffer binding call.
pub struct BufferBinding<'a> {
    inner: RawBufferBinding,
    _marker: PhantomData<&'a Buffer>,
}

impl<'a> View for BufferBinding<'a> {
    type V = RawBufferBinding;

    closed spec fn view(&self) -> RawBufferBinding {
        self.inner
    }
}

impl<'a> BufferBinding<'a> {
    /// A descriptor with every field zero, false or empty: the GPU library's defaults.
    pub fn new() -> (r: Self)
        ensures
            r@ == RawBufferBinding::zeroed(),
    {
        BufferBinding {
            inner: RawBufferBinding {
                buffer: 0,
                offset: 0,
            },
            _marker: PhantomData,
        }
    }

    /// The buffer to bind.
    pub fn with_buffer(self, buffer: &'a Buffer) -> (r: Self)
        ensures
            r@ == (RawBufferBinding { buffer: buffer.ll(), ..self@ }),
    {
        let mut r = self;
        r.inner.buffer = buffer.ll();
        r
    }

    /// The starting byte within the buffer.
    pub fn with_offset(self, offset: u32) -> (r: Self)
        ensures
            r@ == (RawBufferBinding { offset: offset, ..self@ }),
    {
        let mut r = self;
        r.inner.offset = offset;
        r
    }

    /// The record as it stands, to hand to the GPU library.
    pub fn raw(&self) -> (r: &RawBufferBinding)
        ensures
            *r == self@,
    {
        &self.inner
    }
}

impl<'a> Default for BufferBinding<'a> {
    /// The same as [`new`](Self::new).
    fn default() -> (r: Self)
        ensures
            r@ == RawBufferBinding::zeroed(),
    {
        Self::new()
    }
}

/// The record that the GPU library reads for a [`TransferBufferLocation`], field for field.
///
/// Enumerated fields hold their integer codes, floating-point fields the bit
/// patterns of their `f32` values, and resources their handles.
#[derive(Clone, Copy, PartialEq, Eq, Structural, Debug)]
pub struct RawTransferBufferLocation {
    /// The handle of the buffer; 0 for none.
    pub transfer_buffer: usize,
    /// The starting byte.
    pub offset: u32,
}

impl RawTransferBufferLocation {
    /// The record with every field zero, false or empty.
    pub open spec fn zeroed() -> Self {
        RawTransferBufferLocation {
            transfer_buffer: 0,
            offset: 0,
        }
    }
}

/// A location in a transfer buffer.
pub struct TransferBufferLocation<'a> {
    inner: RawTransferBufferLocation,
    _marker: PhantomData<&'a TransferBuffer>,
}

impl<'a> View for TransferBufferLocation<'a> {
    type V = RawTransferBufferLocation;

    closed spec fn view(&self) -> RawTransferBufferLocation {
        self.inner
    }
}

impl<'a> TransferBufferLocation<'a> {
    /// A descriptor with every field zero, false or empty: the GPU library's defaults.
    pub fn new() -> (r: Self)
        ensures
            r@ == RawTransferBufferLocation::zeroed(),
    {
        TransferBufferLocation {
            inner: RawTransferBufferLocation {
                transfer_buffer: 0,
                offset: 0,
            },
            _marker: PhantomData,
        }
    }

    /// The transfer buffer used in the transfer operation.
    pub fn with_transfer_buffer(self, transfer_buffer: &'a TransferBuffer) -> (r: Self)
        ensures
            r@ == (RawTransferBufferLocation { transfer_buffer: transfer_buffer.ll(), ..self@ }),
    {
        let mut r = self;
        r.inner.transfer_buffer = transfer_buffer.ll();
        r
    }

    /// The starting byte within the buffer.
    pub fn with_offset(self, offset: u32) -> (r: Self)
        ensures
            r@ == (RawTransferBufferLocation { offset: offset, ..self@ }),
    {
        let mut r = self;
        r.inner.offset = offset;
        r
    }

    /// The record as it stands, to hand to the GPU library.
    pub fn raw(&self) -> (r: &RawTransferBufferLocation)
        ensures
            *r == self@,
    {
        &self.inner
    }
}

impl<'a> Default for TransferBufferLocation<'a> {
    /// The same as [`new`](Self::new).
    fn default() -> (r: Self)
        ensures
            r@ == RawTransferBufferLocation::zeroed(),
    {
        Self::new()
    }
}

/// The record that the GPU library reads for a [`BufferLocation`], field for field.
///
/// Enumerated fields hold their integer codes, floating-point fields the bit
/// patterns of their `f32` values, and resources their handles.
#[derive(Clone, Copy, PartialEq, Eq, Structural, Debug)]
pub struct RawBufferLocation {
    /// The handle of the buffer; 0 for none.
    pub buffer: usize,
    /// The starting byte.
    pub offset: u32,
}

impl RawBufferLocation {
    /// The record with every field zero, false or empty.
    pub open spec fn zeroed() -> Self {
        RawBufferLocation {
            buffer: 0,
            offset: 0,
        }
    }
}

/// A location in a buffer.
pub struct BufferLocation<'a> {
    inner: RawBufferLocation,
    _marker: PhantomData<&'a Buffer>,
}

impl<'a> View for BufferLocation<'a> {
    type V = RawBufferLocation;

    closed spec fn view(&self) -> RawBufferLocation {
        self.inner
    }
}

impl<'a> BufferLocation<'a> {
    /// A descriptor with every field zero, false or empty: the GPU library's defaults.
    pub fn new() -> (r: Self)
        ensures
            r@ == RawBufferLocation::zeroed(),
    {
        BufferLocation {
            inner: RawBufferLocation {
                buffer: 0,
                offset: 0,
            },
            _marker: PhantomData,
        }
    }

    /// The buffer.
    pub fn with_buffer(self, buffer: &'a Buffer) -> (r: Self)
        ensures
            r@ == (RawBufferLocation { buffer: buffer.ll(), ..self@ }),
    {
        let mut r = self;
        r.inner.buffer = buffer.ll();
        r
    }

    /// The starting byte within the buffer.
    pub fn with_offset(self, offset: u32) -> (r: Self)
        ensures
            r@ == (RawBufferLocation { offset: offset, ..self@ }),
    {
        let mut r = self;
        r.inner.offset = offset;
        r
    }

    /// The record as it stands, to hand to the GPU library.
    pub fn raw(&self) -> (r: &RawBufferLocation)
        ensures
            *r == self@,
    {
        &self.inner
    }
}

impl<'a> Default for BufferLocation<'a> {
    /// The same as [`new`](Self::new).
    fn default() -> (r: Self)
        ensures
            r@ == RawBufferLocation::zeroed(),
    {
        Self::new()
    }
}

/// The record that the GPU library reads for a [`BufferRegion`], field for field.
///
/// Enumerated fields hold their integer codes, floating-point fields the bit
/// patterns of their `f32` values, and resources their handles.
#[derive(Clone, Copy, PartialEq, Eq, Structural, Debug)]
pub struct RawBufferRegion {
    /// The handle of the buffer; 0 for none.
    pub buffer: usize,
    /// The starting byte.
    pub offset: u32,
    /// The size in bytes.
    pub size: u32,
}

impl RawBufferRegion {
    /// The record with every field zero, false or empty.
    pub open spec fn zeroed() -> Self {
        RawBufferRegion {
            buffer: 0,
            offset: 0,
            size: 0,
        }
    }
}

/// A region of a buffer.
pub struct BufferRegion<'a> {
    inner: RawBufferRegion,
    _marker: PhantomData<&'a Buffer>,
}

impl<'a> View for BufferRegion<'a> {
    type V = RawBufferRegion;

    closed spec fn view(&self) -> RawBufferRegion {
        self.inner
    }
}

impl<'a> BufferRegion<'a> {
    /// A descriptor with every field zero, false or empty: the GPU library's defaults.
    pub fn new() -> (r: Self)
        ensures
            r@ == RawBufferRegion::zeroed(),
    {
        BufferRegion {
            inner: RawBufferRegion {
                buffer: 0,
                offset: 0,
                size: 0,
            },
            _marker: PhantomData,
        }
    }

    /// The buffer.
    pub fn with_buffer(self, buffer: &'a Buffer) -> (r: Self)
        ensures
            r@ == (RawBufferRegion { buffer: buffer.ll(), ..self@ }),
    {
        let mut r = self;
        r.inner.buffer = buffer.ll();
        r
    }

    /// The starting byte within the buffer.
    pub fn with_offset(self, offset: u32) -> (r: Self)
        ensures
            r@ == (RawBufferRegion { offset: offset, ..self@ }),
    {
        let mut r = self;
        r.inner.offset = offset;
        r
    }

    /// The size in bytes of the region.
    pub fn with_size(self, size: u32) -> (r: Self)
        ensures
            r@ == (RawBufferRegion { size: size, ..self@ }),
    {
        let mut r = self;
        r.inner.size = size;
        r
    }

    /// The record as it stands, to hand to the GPU library.
    pub fn raw(&self) -> (r: &RawBufferRegion)
        ensures
            *r == self@,
    {
        &self.inner
    }
}

impl<'a> Default for BufferRegion<'a> {
    /// The same as [`new`](Self::new).
    fn default() -> (r: Self)
        ensures
            r@ == RawBufferRegion::zeroed(),
    {
        Self::new()
    }
}

/// The record that the GPU library reads for a [`VertexBufferDescription`], field for field.
///
/// Enumerated fields hold their integer codes, floating-point fields the bit
/// patterns of their `f32` values, and resources their handles.
#[derive(Clone, Copy, PartialEq, Eq, Structural, Debug)]
pub struct RawVertexBufferDescription {
    /// The binding slot.
    pub slot: u32,
    /// The byte pitch between consecutive elements.
    pub pitch: u32,
    /// The code of the input rate.
    pub input_rate: i32,
    /// Reserved; zero.
    pub instance_step_rate: u32,
}

impl RawVertexBufferDescription {
    /// The record with every field zero, false or empty.
    pub open spec fn zeroed() -> Self {
        RawVertexBufferDescription {
            slot: 0,
            pitch: 0,
            input_rate: 0,
            instance_step_rate: 0,
        }
    }
}

/// The parameters of a vertex buffer used in a graphics pipeline.
#[derive(Clone, Copy, Debug)]
pub struct VertexBufferDescription {
    inner: RawVertexBufferDescription,
}

impl View for VertexBufferDescription {
    type V = RawVertexBufferDescription;

    closed spec fn view(&self) -> RawVertexBufferDescription {
        self.inner
    }
}

impl VertexBufferDescription {
    /// A descriptor with every field zero, false or empty: the GPU library's defaults.
    pub fn new() -> (r: Self)
        ensures
            r@ == RawVertexBufferDescription::zeroed(),
    {
        VertexBufferDescription {
            inner: RawVertexBufferDescription {
                slot: 0,
                pitch: 0,
                input_rate: 0,
                instance_step_rate: 0,
            },
        }
    }

    /// The binding slot of the vertex buffer.
    pub fn with_slot(self, slot: u32) -> (r: Self)
        ensures
            r@ == (RawVertexBufferDescription { slot: slot, ..self@ }),
    {
        let mut r = self;
        r.inner.slot = slot;
        r
    }

    /// The byte pitch between consecutive elements of the vertex buffer.
    pub fn with_pitch(self, pitch: u32) -> (r: Self)
        ensures
            r@ == (RawVertexBufferDescription { pitch: pitch, ..self@ }),
    {
        let mut r = self;
        r.inner.pitch = pitch;
        r
    }

    /// Whether attribute addressing follows the vertex index or the instance index.
    pub fn with_input_rate(self, input_rate: VertexInputRate) -> (r: Self)
        ensures
            r@ == (RawVertexBufferDescription { input_rate: input_rate.code(), ..self@ }),
    {
        let mut r = self;
        r.inner.input_rate = input_rate.code();
        r
    }

    /// The record as it stands, to hand to the GPU library.
    pub fn raw(&self) -> (r: &RawVertexBufferDescription)
        ensures
            *r == self@,
    {
        &self.inner
    }
}

impl Default for VertexBufferDescription {
    /// The same as [`new`](Self::new).
    fn default() -> (r: Self)
        ensures
            r@ == RawVertexBufferDescription::zeroed(),
    {
        Self::new()
    }
}

/// The record that the GPU library reads for a [`VertexInputState`], field for field.
///
/// Enumerated fields hold their integer codes, floating-point fields the bit
/// patterns of their `f32` values, and resources their handles.
#[derive(Clone, Copy, Debug)]
pub struct RawVertexInputState<'a> {
    /// The vertex buffer descriptions; `None` for none.
    pub vertex_buffer_descriptions: Option<&'a [VertexBufferDescription]>,
    /// The number of vertex buffer descriptions.
    pub num_vertex_buffers: u32,
    /// The vertex attributes; `None` for none.
    pub vertex_attributes: Option<&'a [VertexAttribute]>,
    /// The number of vertex attributes.
    pub num_vertex_attributes: u32,
}

impl<'a> RawVertexInputState<'a> {
    /// The record with every field zero, false or empty.
    pub open spec fn zeroed() -> Self {
        RawVertexInputState {
            vertex_buffer_descriptions: None,
            num_vertex_buffers: 0,
            vertex_attributes: None,
            num_vertex_attributes: 0,
        }
    }
}

/// The vertex input state of a graphics pipeline.
pub struct VertexInputState<'a> {
    inner: RawVertexInputState<'a>,
    _marker: PhantomData<(&'a [VertexBufferDescription], &'a [VertexAttribute])>,
}

impl<'a> View for VertexInputState<'a> {
    type V = RawVertexInputState<'a>;

    closed spec fn view(&self) -> RawVertexInputState<'a> {
        self.inner
    }
}

impl<'a> VertexInputState<'a> {
    /// A descriptor with every field zero, false or empty: the GPU library's defaults.
    pub fn new() -> (r: Self)
        ensures
            r@ == RawVertexInputState::zeroed(),
    {
        VertexInputState {
            inner: RawVertexInputState {
                vertex_buffer_descriptions: None,
                num_vertex_buffers: 0,
                vertex_attributes: None,
                num_vertex_attributes: 0,
            },
            _marker: PhantomData,
        }
    }

    /// A slice of vertex buffer descriptions; its length is recorded as a `u32`.
    pub fn with_vertex_buffer_descriptions(self, vertex_buffer_descriptions: &'a [VertexBufferDescription]) -> (r: Self)
        ensures
            r@ == (RawVertexInputState { vertex_buffer_descriptions: Some(vertex_buffer_descriptions), num_vertex_buffers: vertex_buffer_descriptions@.len() as u32, ..self@ }),
    {
        let mut r = self;
        r.inner.vertex_buffer_descriptions = Some(vertex_buffer_descriptions);
        r.inner.num_vertex_buffers = vertex_buffer_descriptions.len() as u32;
        r
    }

    /// A slice of vertex attribute descriptions; its length is recorded as a `u32`.
    pub fn with_vertex_attributes(self, vertex_attributes: &'a [VertexAttribute]) -> (r: Self)
        ensures
            r@ == (RawVertexInputState { vertex_attributes: Some(vertex_attributes), num_vertex_attributes: vertex_attributes@.len() as u32, ..self@ }),
    {
        let mut r = self;
        r.inner.vertex_attributes = Some(vertex_attributes);
        r.inner.num_vertex_attributes = vertex_attributes.len() as u32;
        r
    }

    /// The record as it stands, to hand to the GPU library.
    pub fn raw(&self) -> (r: &RawVertexInputState<'a>)
        ensures
            *r == self@,
    {
        &self.inner
    }
}

impl<'a> Default for VertexInputState<'a> {
    /// The same as [`new`](Self::new).
    fn default() -> (r: Self)
        ensures
            r@ == RawVertexInputState::zeroed(),
    {
        Self::new()
    }
}

/// The record that the GPU library reads for a [`RasterizerState`], field for field.
///
/// Enumerated fields hold their integer codes, floating-point fields the bit
/// patterns of their `f32` values, and resources their handles.
#[derive(Clone, Copy, PartialEq, Eq, Structural, Debug)]
pub struct RawRasterizerState {
    /// The code of the fill mode.
    pub fill_mode: i32,
    /// The code of the cull mode.
    pub cull_mode: i32,
    /// The code of the front-face winding.
    pub front_face: i32,
    /// The constant depth bias, as the bit pattern of an `f32`.
    pub depth_bias_constant_factor: u32,
    /// The maximum depth bias, as the bit pattern of an `f32`.
    pub depth_bias_clamp: u32,
    /// The slope depth bias, as the bit pattern of an `f32`.
    pub depth_bias_slope_factor: u32,
    /// Whether depth values are biased.
    pub enable_depth_bias: bool,
    /// Whether depth is clipped rather than clamped.
    pub enable_depth_clip: bool,
}

impl RawRasterizerState {
    /// The record with every field zero, false or empty.
    pub open spec fn zeroed() -> Self {
        RawRasterizerState {
            fill_mode: 0,
            cull_mode: 0,
            front_face: 0,
            depth_bias_constant_factor: 0,
            depth_bias_clamp: 0,
            depth_bias_slope_factor: 0,
            enable_depth_bias: false,
            enable_depth_clip: false,
        }
    }
}

/// The rasterizer state of a graphics pipeline.
pub struct RasterizerState {
    inner: RawRasterizerState,
}

impl View for RasterizerState {
    type V = RawRasterizerState;

    closed spec fn view(&self) -> RawRasterizerState {
        self.inner
    }
}

impl RasterizerState {
    /// A descriptor with every field zero, false or empty: the GPU library's defaults.
    pub fn new() -> (r: Self)
        ensures
            r@ == RawRasterizerState::zeroed(),
    {
        RasterizerState {
            inner: RawRasterizerState {
                fill_mode: 0,
                cull_mode: 0,
                front_face: 0,
                depth_bias_constant_factor: 0,
                depth_bias_clamp: 0,
                depth_bias_slope_factor: 0,
                enable_depth_bias: false,
                enable_depth_clip: false,
            },
        }
    }

    /// Whether polygons will be filled in or drawn as lines.
    pub fn with_fill_mode(self, fill_mode: FillMode) -> (r: Self)
        ensures
            r@ == (RawRasterizerState { fill_mode: fill_mode.code(), ..self@ }),
    {
        let mut r = self;
        r.inner.fill_mode = fill_mode.code();
        r
    }

    /// The facing direction in which triangles will be culled.
    pub fn with_cull_mode(self, cull_mode: CullMode) -> (r: Self)
        ensures
            r@ == (RawRasterizerState { cull_mode: cull_mode.code(), ..self@ }),
    {
        let mut r = self;
        r.inner.cull_mode = cull_mode.code();
        r
    }

    /// The vertex winding that makes a triangle front-facing.
    pub fn with_front_face(self, front_face: FrontFace) -> (r: Self)
        ensures
            r@ == (RawRasterizerState { front_face: front_face.code(), ..self@ }),
    {
        let mut r = self;
        r.inner.front_face = front_face.code();
        r
    }

    /// A scalar factor for the depth added to each fragment, as the bit pattern of an `f32`.
    pub fn with_depth_bias_constant_factor_bits(self, depth_bias_constant_factor: u32) -> (r: Self)
        ensures
            r@ == (RawRasterizerState { depth_bias_constant_factor: depth_bias_constant_factor, ..self@ }),
    {
        let mut r = self;
        r.inner.depth_bias_constant_factor = depth_bias_constant_factor;
        r
    }

    /// The maximum depth bias of a fragment, as the bit pattern of an `f32`.
    pub fn with_depth_bias_clamp_bits(self, depth_bias_clamp: u32) -> (r: Self)
        ensures
            r@ == (RawRasterizerState { depth_bias_clamp: depth_bias_clamp, ..self@ }),
    {
        let mut r = self;
        r.inner.depth_bias_clamp = depth_bias_clamp;
        r
    }

    /// A scalar factor applied to a fragment's slope in depth calculations, as the bit pattern of an `f32`.
    pub fn with_depth_slope_factor_bits(self, depth_bias_slope_factor: u32) -> (r: Self)
        ensures
            r@ == (RawRasterizerState { depth_bias_slope_factor: depth_bias_slope_factor, ..self@ }),
    {
        let mut r = self;
        r.inner.depth_bias_slope_factor = depth_bias_slope_factor;
        r
    }

    /// True to bias fragment depth values.
    pub fn with_enable_depth_bias(self, enable_depth_bias: bool) -> (r: Self)
        ensures
            r@ == (RawRasterizerState { enable_depth_bias: enable_depth_bias, ..self@ }),
    {
        let mut r = self;
        r.inner.enable_depth_bias = enable_depth_bias;
        r
    }

    /// True to enable depth clip, false to enable depth clamp.
    pub fn with_enable_depth_clip(self, enable_depth_clip: bool) -> (r: Self)
        ensures
            r@ == (RawRasterizerState { enable_depth_clip: enable_depth_clip, ..self@ }),
    {
        let mut r = self;
        r.inner.enable_depth_clip = enable_depth_clip;
        r
    }

    /// The record as it stands, to hand to the GPU library.
    pub fn raw(&self) -> (r: &RawRasterizerState)
        ensures
            *r == self@,
    {
        &self.inner
    }
}

impl Default for RasterizerState {
    /// The same as [`new`](Self::new).
    fn default() -> (r: Self)
        ensures
            r@ == RawRasterizerState::zeroed(),
    {
        Self::new()
    }
}

/// The record that the GPU library reads for a [`StencilOpState`], field for field.
///
/// Enumerated fields hold their integer codes, floating-point fields the bit
/// patterns of their `f32` values, and resources their handles.
#[derive(Clone, Copy, PartialEq, Eq, Structural, Debug)]
pub struct RawStencilOpState {
    /// The code of the action on stencil failure.
    pub fail_op: i32,
    /// The code of the action on passing both tests.
    pub pass_op: i32,
    /// The code of the action on passing the stencil test and failing the depth test.
    pub depth_fail_op: i32,
    /// The code of the stencil comparison operator.
    pub compare_op: i32,
}

impl RawStencilOpState {
    /// The record with every field zero, false or empty.
    pub open spec fn zeroed() -> Self {
        RawStencilOpState {
            fail_op: 0,
            pass_op: 0,
            depth_fail_op: 0,
            compare_op: 0,
        }
    }
}

/// The stencil operation state of a graphics pipeline.
pub struct StencilOpState {
    inner: RawStencilOpState,
}

impl View for StencilOpState {
    type V = RawStencilOpState;

    closed spec fn view(&self) -> RawStencilOpState {
        self.inner
    }
}

impl StencilOpState {
    /// A descriptor with every field zero, false or empty: the GPU library's defaults.
    pub fn new() -> (r: Self)
        ensures
            r@ == RawStencilOpState::zeroed(),
    {
        StencilOpState {
            inner: RawStencilOpState {
                fail_op: 0,
                pass_op: 0,
                depth_fail_op: 0,
                compare_op: 0,
            },
        }
    }

    /// The comparison operator used in the stencil test.
    pub fn with_compare_op(self, compare_op: CompareOp) -> (r: Self)
        ensures
            r@ == (RawStencilOpState { compare_op: compare_op.code(), ..self@ }),
    {
        let mut r = self;
        r.inner.compare_op = compare_op.code();
        r
    }

    /// The action performed on samples that fail the stencil test.
    pub fn with_fail_op(self, fail_op: StencilOp) -> (r: Self)
        ensures
            r@ == (RawStencilOpState { fail_op: fail_op.code(), ..self@ }),
    {
        let mut r = self;
        r.inner.fail_op = fail_op.code();
        r
    }

    /// The action performed on samples that pass the depth and stencil tests.
    pub fn with_pass_op(self, pass_op: StencilOp) -> (r: Self)
        ensures
            r@ == (RawStencilOpState { pass_op: pass_op.code(), ..self@ }),
    {
        let mut r = self;
        r.inner.pass_op = pass_op.code();
        r
    }

    /// The action performed on samples that pass the stencil test and fail the depth test.
    pub fn with_depth_fail_op(self, depth_fail_op: StencilOp) -> (r: Self)
        ensures
            r@ == (RawStencilOpState { depth_fail_op: depth_fail_op.code(), ..self@ }),
    {
        let mut r = self;
        r.inner.depth_fail_op = depth_fail_op.code();
        r
    }

    /// The record as it stands, to hand to the GPU library.
    pub fn raw(&self) -> (r: &RawStencilOpState)
        ensures
            *r == self@,
    {
        &self.inner
    }
}

impl Default for StencilOpState {
    /// The same as [`new`](Self::new).
    fn default() -> (r: Self)
        ensures
            r@ == RawStencilOpState::zeroed(),
    {
        Self::new()
    }
}

/// The record that the GPU library reads for a [`DepthStencilState`], field for field.
///
/// Enumerated fields hold their integer codes, floating-point fields the bit
/// patterns of their `f32` values, and resources their handles.
#[derive(Clone, Copy, PartialEq, Eq, Structural, Debug)]
pub struct RawDepthStencilState {
    /// The code of the depth comparison operator.
    pub compare_op: i32,
    /// The stencil state for back-facing triangles.
    pub back_stencil_state: RawStencilOpState,
    /// The stencil state for front-facing triangles.
    pub front_stencil_state: RawStencilOpState,
    /// The stencil bits that take part in the test.
    pub compare_mask: u8,
    /// The stencil bits that the test updates.
    pub write_mask: u8,
    /// Whether the depth test is on.
    pub enable_depth_test: bool,
    /// Whether depth writes are on.
    pub enable_depth_write: bool,
    /// Whether the stencil test is on.
    pub enable_stencil_test: bool,
}

impl RawDepthStencilState {
    /// The record with every field zero, false or empty.
    pub open spec fn zeroed() -> Self {
        RawDepthStencilState {
            compare_op: 0,
            back_stencil_state: RawStencilOpState::zeroed(),
            front_stencil_state: RawStencilOpState::zeroed(),
            compare_mask: 0,
            write_mask: 0,
            enable_depth_test: false,
            enable_depth_write: false,
            enable_stencil_test: false,
        }
    }
}

/// The depth-stencil state of a graphics pipeline.
pub struct DepthStencilState {
    inner: RawDepthStencilState,
}

impl View for DepthStencilState {
    type V = RawDepthStencilState;

    closed spec fn view(&self) -> RawDepthStencilState {
        self.inner
    }
}

impl DepthStencilState {
    /// A descriptor with every field zero, false or empty: the GPU library's defaults.
    pub fn new() -> (r: Self)
        ensures
            r@ == RawDepthStencilState::zeroed(),
    {
        DepthStencilState {
            inner: RawDepthStencilState {
                compare_op: 0,
                back_stencil_state: StencilOpState::new().inner,
                front_stencil_state: StencilOpState::new().inner,
                compare_mask: 0,
                write_mask: 0,
                enable_depth_test: false,
                enable_depth_write: false,
                enable_stencil_test: false,
            },
        }
    }

    /// The comparison operator used for depth testing.
    pub fn with_compare_op(self, compare_op: CompareOp) -> (r: Self)
        ensures
            r@ == (RawDepthStencilState { compare_op: compare_op.code(), ..self@ }),
    {
        let mut r = self;
        r.inner.compare_op = compare_op.code();
        r
    }

    /// The stencil state for back-facing triangles.
    pub fn with_back_stencil_state(self, back_stencil_state: StencilOpState) -> (r: Self)
        ensures
            r@ == (RawDepthStencilState { back_stencil_state: back_stencil_state@, ..self@ }),
    {
        let mut r = self;
        r.inner.back_stencil_state = back_stencil_state.inner;
        r
    }

    /// The stencil state for front-facing triangles.
    pub fn with_front_stencil_state(self, front_stencil_state: StencilOpState) -> (r: Self)
        ensures
            r@ == (RawDepthStencilState { front_stencil_state: front_stencil_state@, ..self@ }),
    {
        let mut r = self;
        r.inner.front_stencil_state = front_stencil_state.inner;
        r
    }

    /// Selects the bits of the stencil values taking part in the stencil test.
    pub fn with_compare_mask(self, compare_mask: u8) -> (r: Self)
        ensures
            r@ == (RawDepthStencilState { compare_mask: compare_mask, ..self@ }),
    {
        let mut r = self;
        r.inner.compare_mask = compare_mask;
        r
    }

    /// Selects the bits of the stencil values updated by the stencil test.
    pub fn with_write_mask(self, write_mask: u8) -> (r: Self)
        ensures
            r@ == (RawDepthStencilState { write_mask: write_mask, ..self@ }),
    {
        let mut r = self;
        r.inner.write_mask = write_mask;
        r
    }

    /// True enables the depth test.
    pub fn with_enable_depth_test(self, enable_depth_test: bool) -> (r: Self)
        ensures
            r@ == (RawDepthStencilState { enable_depth_test: enable_depth_test, ..self@ }),
    {
        let mut r = self;
        r.inner.enable_depth_test = enable_depth_test;
        r
    }

    /// True enables depth writes.
    pub fn with_enable_depth_write(self, enable_depth_write: bool) -> (r: Self)
        ensures
            r@ == (RawDepthStencilState { enable_depth_write: enable_depth_write, ..self@ }),
    {
        let mut r = self;
        r.inner.enable_depth_write = enable_depth_write;
        r
    }

    /// True enables the stencil test.
    pub fn with_enable_stencil_test(self, enable_stencil_test: bool) -> (r: Self)
        ensures
            r@ == (RawDepthStencilState { enable_stencil_test: enable_stencil_test, ..self@ }),
    {
        let mut r = self;
        r.inner.enable_stencil_test = enable_stencil_test;
        r
    }

    /// The record as it stands, to hand to the GPU library.
    pub fn raw(&self) -> (r: &RawDepthStencilState)
        ensures
            *r == self@,
    {
        &self.inner
    }
}

impl Default for DepthStencilState {
    /// The same as [`new`](Self::new).
    fn default() -> (r: Self)
        ensures
            r@ == RawDepthStencilState::zeroed(),
    {
        Self::new()
    }
}

/// The record that the GPU library reads for a [`GraphicsPipelineTargetInfo`], field for field.
///
/// Enumerated fields hold their integer codes, floating-point fields the bit
/// patterns of their `f32` values, and resources their handles.
#[derive(Clone, Copy, Debug)]
pub struct RawGraphicsPipelineTargetInfo<'a> {
    /// The color target descriptions; `None` for none.
    pub color_target_descriptions: Option<&'a [ColorTargetDescription]>,
    /// The number of color target descriptions.
    pub num_color_targets: u32,
    /// The code of the depth-stencil target's pixel format.
    pub depth_stencil_format: i32,
    /// Whether the pipeline uses a depth-stencil target.
    pub has_depth_stencil_target: bool,
}

impl<'a> RawGraphicsPipelineTargetInfo<'a> {
    /// The record with every field zero, false or empty.
    pub open spec fn zeroed() -> Self {
        RawGraphicsPipelineTargetInfo {
            color_target_descriptions: None,
            num_color_targets: 0,
            depth_stencil_format: 0,
            has_depth_stencil_target: false,
        }
    }
}

/// The render targets of a graphics pipeline.
pub struct GraphicsPipelineTargetInfo<'a> {
    inner: RawGraphicsPipelineTargetInfo<'a>,
    _marker: PhantomData<&'a [ColorTargetDescription]>,
}

impl<'a> View for GraphicsPipelineTargetInfo<'a> {
    type V = RawGraphicsPipelineTargetInfo<'a>;

    closed spec fn view(&self) -> RawGraphicsPipelineTargetInfo<'a> {
        self.inner
    }
}

impl<'a> GraphicsPipelineTargetInfo<'a> {
    /// A descriptor with every field zero, false or empty: the GPU library's defaults.
    pub fn new() -> (r: Self)
        ensures
            r@ == RawGraphicsPipelineTargetInfo::zeroed(),
    {
        GraphicsPipelineTargetInfo {
            inner: RawGraphicsPipelineTargetInfo {
                color_target_descriptions: None,
                num_color_targets: 0,
                depth_stencil_format: 0,
                has_depth_stencil_target: false,
            },
            _marker: PhantomData,
        }
    }

    /// A slice of color target descriptions; its length is recorded as a `u32`.
    pub fn with_color_target_descriptions(self, color_target_descriptions: &'a [ColorTargetDescription]) -> (r: Self)
        ensures
            r@ == (RawGraphicsPipelineTargetInfo { color_target_descriptions: Some(color_target_descriptions), num_color_targets: color_target_descriptions@.len() as u32, ..self@ }),
    {
        let mut r = self;
        r.inner.color_target_descriptions = Some(color_target_descriptions);
        r.inner.num_color_targets = color_target_descriptions.len() as u32;
        r
    }

    /// The pixel format of the depth-stencil target. Ignored unless the pipeline has one.
    pub fn with_depth_stencil_format(self, depth_stencil_format: TextureFormat) -> (r: Self)
        ensures
            r@ == (RawGraphicsPipelineTargetInfo { depth_stencil_format: depth_stencil_format.0, ..self@ }),
    {
        let mut r = self;
        r.inner.depth_stencil_format = depth_stencil_format.0;
        r
    }

    /// `true` specifies that the pipeline uses a depth-stencil target.
    pub fn with_has_depth_stencil_target(self, has_depth_stencil_target: bool) -> (r: Self)
        ensures
            r@ == (RawGraphicsPipelineTargetInfo { has_depth_stencil_target: has_depth_stencil_target, ..self@ }),
    {
        let mut r = self;
        r.inner.has_depth_stencil_target = has_depth_stencil_target;
        r
    }

    /// The record as it stands, to hand to the GPU library.
    pub fn raw(&self) -> (r: &RawGraphicsPipelineTargetInfo<'a>)
        ensures
            *r == self@,
    {
        &self.inner
    }
}

impl<'a> Default for GraphicsPipelineTargetInfo<'a> {
    /// The same as [`new`](Self::new).
    fn default() -> (r: Self)
        ensures
            r@ == RawGraphicsPipelineTargetInfo::zeroed(),
    {
        Self::new()
    }
}

/// The record that the GPU library reads for a [`VertexAttribute`], field for field.
///
/// Enumerated fields hold their integer codes, floating-point fields the bit
/// patterns of their `f32` values, and resources their handles.
#[derive(Clone, Copy, PartialEq, Eq, Structural, Debug)]
pub struct RawVertexAttribute {
    /// The shader input location.
    pub location: u32,
    /// The binding slot of the vertex buffer.
    pub buffer_slot: u32,
    /// The code of the element format.
    pub format: i32,
    /// The byte offset within the vertex element.
    pub offset: u32,
}

impl RawVertexAttribute {
    /// The record with every field zero, false or empty.
    pub open spec fn zeroed() -> Self {
        RawVertexAttribute {
            location: 0,
            buffer_slot: 0,
            format: 0,
            offset: 0,
        }
    }
}

/// A vertex attribute.
///
/// The locations of the attributes handed to a [`VertexInputState`] must be unique;
/// the GPU library checks that, not this type.
#[derive(Clone, Copy, Debug)]
pub struct VertexAttribute {
    inner: RawVertexAttribute,
}

impl View for VertexAttribute {
    type V = RawVertexAttribute;

    closed spec fn view(&self) -> RawVertexAttribute {
        self.inner
    }
}

impl VertexAttribute {
    /// A descriptor with every field zero, false or empty: the GPU library's defaults.
    pub fn new() -> (r: Self)
        ensures
            r@ == RawVertexAttribute::zeroed(),
    {
        VertexAttribute {
            inner: RawVertexAttribute {
                location: 0,
                buffer_slot: 0,
                format: 0,
                offset: 0,
            },
        }
    }

    /// The shader input location index.
    pub fn with_location(self, location: u32) -> (r: Self)
        ensures
            r@ == (RawVertexAttribute { location: location, ..self@ }),
    {
        let mut r = self;
        r.inner.location = location;
        r
    }

    /// The binding slot of the associated vertex buffer.
    pub fn with_buffer_slot(self, buffer_slot: u32) -> (r: Self)
        ensures
            r@ == (RawVertexAttribute { buffer_slot: buffer_slot, ..self@ }),
    {
        let mut r = self;
        r.inner.buffer_slot = buffer_slot;
        r
    }

    /// The size and type of the attribute data.
    pub fn with_format(self, format: VertexElementFormat) -> (r: Self)
        ensures
            r@ == (RawVertexAttribute { format: format.code(), ..self@ }),
    {
        let mut r = self;
        r.inner.format = format.code();
        r
    }

    /// The byte offset of this attribute from the start of the vertex element.
    pub fn with_offset(self, offset: u32) -> (r: Self)
        ensures
            r@ == (RawVertexAttribute { offset: offset, ..self@ }),
    {
        let mut r = self;
        r.inner.offset = offset;
        r
    }

    /// The record as it stands, to hand to the GPU library.
    pub fn raw(&self) -> (r: &RawVertexAttribute)
        ensures
            *r == self@,
    {
        &self.inner
    }
}

impl Default for VertexAttribute {
    /// The same as [`new`](Self::new).
    fn default() -> (r: Self)
        ensures
            r@ == RawVertexAttribute::zeroed(),
    {
        Self::new()
    }
}

/// The record that the GPU library reads for a [`ColorTargetBlendState`], field for field.
///
/// Enumerated fields hold their integer codes, floating-point fields the bit
/// patterns of their `f32` values, and resources their handles.
#[derive(Clone, Copy, PartialEq, Eq, Structural, Debug)]
pub struct RawColorTargetBlendState {
    /// The code of the source RGB factor.
    pub src_color_blendfactor: i32,
    /// The code of the destination RGB factor.
    pub dst_color_blendfactor: i32,
    /// The code of the RGB blend operation.
    pub color_blend_op: i32,
    /// The code of the source alpha factor.
    pub src_alpha_blendfactor: i32,
    /// The code of the destination alpha factor.
    pub dst_alpha_blendfactor: i32,
    /// The code of the alpha blend operation.
    pub alpha_blend_op: i32,
    /// The component bits enabled for writing.
    pub color_write_mask: u8,
    /// Whether blending is on.
    pub enable_blend: bool,
    /// Whether the write mask is on.
    pub enable_color_write_mask: bool,
}

impl RawColorTargetBlendState {
    /// The record with every field zero, false or empty.
    pub open spec fn zeroed() -> Self {
        RawColorTargetBlendState {
            src_color_blendfactor: 0,
            dst_color_blendfactor: 0,
            color_blend_op: 0,
            src_alpha_blendfactor: 0,
            dst_alpha_blendfactor: 0,
            alpha_blend_op: 0,
            color_write_mask: 0,
            enable_blend: false,
            enable_color_write_mask: false,
        }
    }
}

/// The blend state of a color target.
pub struct ColorTargetBlendState {
    inner: RawColorTargetBlendState,
}

impl View for ColorTargetBlendState {
    type V = RawColorTargetBlendState;

    closed spec fn view(&self) -> RawColorTargetBlendState {
        self.inner
    }
}

impl ColorTargetBlendState {
    /// A descriptor with every field zero, false or empty: the GPU library's defaults.
    pub fn new() -> (r: Self)
        ensures
            r@ == RawColorTargetBlendState::zeroed(),
    {
        ColorTargetBlendState {
            inner: RawColorTargetBlendState {
                src_color_blendfactor: 0,
                dst_color_blendfactor: 0,
                color_blend_op: 0,
                src_alpha_blendfactor: 0,
                dst_alpha_blendfactor: 0,
                alpha_blend_op: 0,
                color_write_mask: 0,
                enable_blend: false,
                enable_color_write_mask: false,
            },
        }
    }

    /// The value the source RGB value is multiplied by.
    pub fn with_src_color_blendfactor(self, src_color_blendfactor: BlendFactor) -> (r: Self)
        ensures
            r@ == (RawColorTargetBlendState { src_color_blendfactor: src_color_blendfactor.code(), ..self@ }),
    {
        let mut r = self;
        r.inner.src_color_blendfactor = src_color_blendfactor.code();
        r
    }

    /// The value the destination RGB value is multiplied by.
    pub fn with_dst_color_blendfactor(self, dst_color_blendfactor: BlendFactor) -> (r: Self)
        ensures
            r@ == (RawColorTargetBlendState { dst_color_blendfactor: dst_color_blendfactor.code(), ..self@ }),
    {
        let mut r = self;
        r.inner.dst_color_blendfactor = dst_color_blendfactor.code();
        r
    }

    /// The blend operation for the RGB components.
    pub fn with_color_blend_op(self, color_blend_op: BlendOp) -> (r: Self)
        ensures
            r@ == (RawColorTargetBlendState { color_blend_op: color_blend_op.code(), ..self@ }),
    {
        let mut r = self;
        r.inner.color_blend_op = color_blend_op.code();
        r
    }

    /// The value the source alpha is multiplied by.
    pub fn with_src_alpha_blendfactor(self, src_alpha_blendfactor: BlendFactor) -> (r: Self)
        ensures
            r@ == (RawColorTargetBlendState { src_alpha_blendfactor: src_alpha_blendfactor.code(), ..self@ }),
    {
        let mut r = self;
        r.inner.src_alpha_blendfactor = src_alpha_blendfactor.code();
        r
    }

    /// The value the destination alpha is multiplied by.
    pub fn with_dst_alpha_blendfactor(self, dst_alpha_blendfactor: BlendFactor) -> (r: Self)
        ensures
            r@ == (RawColorTargetBlendState { dst_alpha_blendfactor: dst_alpha_blendfactor.code(), ..self@ }),
    {
        let mut r = self;
        r.inner.dst_alpha_blendfactor = dst_alpha_blendfactor.code();
        r
    }

    /// The blend operation for the alpha component.
    pub fn with_alpha_blend_op(self, alpha_blend_op: BlendOp) -> (r: Self)
        ensures
            r@ == (RawColorTargetBlendState { alpha_blend_op: alpha_blend_op.code(), ..self@ }),
    {
        let mut r = self;
        r.inner.alpha_blend_op = alpha_blend_op.code();
        r
    }

    /// Which of the RGBA components are written; all are written unless the write mask is enabled.
    pub fn with_color_write_mask(self, color_write_mask: ColorComponentFlags) -> (r: Self)
        ensures
            r@ == (RawColorTargetBlendState { color_write_mask: color_write_mask.0, ..self@ }),
    {
        let mut r = self;
        r.inner.color_write_mask = color_write_mask.0;
        r
    }

    /// Whether blending is enabled for the color target.
    pub fn with_enable_blend(self, enable_blend: bool) -> (r: Self)
        ensures
            r@ == (RawColorTargetBlendState { enable_blend: enable_blend, ..self@ }),
    {
        let mut r = self;
        r.inner.enable_blend = enable_blend;
        r
    }

    /// Whether the color write mask is enabled.
    pub fn with_enable_color_write_mask(self, enable_color_write_mask: bool) -> (r: Self)
        ensures
            r@ == (RawColorTargetBlendState { enable_color_write_mask: enable_color_write_mask, ..self@ }),
    {
        let mut r = self;
        r.inner.enable_color_write_mask = enable_color_write_mask;
        r
    }

    /// The record as it stands, to hand to the GPU library.
    pub fn raw(&self) -> (r: &RawColorTargetBlendState)
        ensures
            *r == self@,
    {
        &self.inner
    }
}

impl Default for ColorTargetBlendState {
    /// The same as [`new`](Self::new).
    fn default() -> (r: Self)
        ensures
            r@ == RawColorTargetBlendState::zeroed(),
    {
        Self::new()
    }
}

/// The record that the GPU library reads for a [`ColorTargetDescription`], field for field.
///
/// Enumerated fields hold their integer codes, floating-point fields the bit
/// patterns of their `f32` values, and resources their handles.
#[derive(Clone, Copy, PartialEq, Eq, Structural, Debug)]
pub struct RawColorTargetDescription {
    /// The code of the pixel format.
    pub format: i32,
    /// The blend state.
    pub blend_state: RawColorTargetBlendState,
}

impl RawColorTargetDescription {
    /// The record with every field zero, false or empty.
    pub open spec fn zeroed() -> Self {
        RawColorTargetDescription {
            format: 0,
            blend_state: RawColorTargetBlendState::zeroed(),
        }
    }
}

/// A color target of a graphics pipeline.
#[derive(Clone, Copy, Debug)]
pub struct ColorTargetDescription {
    inner: RawColorTargetDescription,
}

impl View for ColorTargetDescription {
    type V = RawColorTargetDescription;

    closed spec fn view(&self) -> RawColorTargetDescription {
        self.inner
    }
}

impl ColorTargetDescription {
    /// A descriptor with every field zero, false or empty: the GPU library's defaults.
    pub fn new() -> (r: Self)
        ensures
            r@ == RawColorTargetDescription::zeroed(),
    {
        ColorTargetDescription {
            inner: RawColorTargetDescription {
                format: 0,
                blend_state: ColorTargetBlendState::new().inner,
            },
        }
    }

    /// The pixel format of the texture used as the color target.
    pub fn with_format(self, format: TextureFormat) -> (r: Self)
        ensures
            r@ == (RawColorTargetDescription { format: format.0, ..self@ }),
    {
        let mut r = self;
        r.inner.format = format.0;
        r
    }

    /// The blend state of the color target.
    pub fn with_blend_state(self, blend_state: ColorTargetBlendState) -> (r: Self)
        ensures
            r@ == (RawColorTargetDescription { blend_state: blend_state@, ..self@ }),
    {
        let mut r = self;
        r.inner.blend_state = blend_state.inner;
        r
    }

    /// The record as it stands, to hand to the GPU library.
    pub fn raw(&self) -> (r: &RawColorTargetDescription)
        ensures
            *r == self@,
    {
        &self.inner
    }
}

impl Default for ColorTargetDescription {
    /// The same as [`new`](Self::new).
    fn default() -> (r: Self)
        ensures
            r@ == RawColorTargetDescription::zeroed(),
    {
        Self::new()
    }
}

/// The record that the GPU library reads for a [`TextureSamplerBinding`], field for field.
///
/// Enumerated fields hold their integer codes, floating-point fields the bit
/// patterns of their `f32` values, and resources their handles.
#[derive(Clone, Copy, PartialEq, Eq, Structural, Debug)]
pub struct RawTextureSamplerBinding {
    /// The handle of the texture; 0 for none.
    pub texture: usize,
    /// The handle of the sampler; 0 for none.
    pub sampler: usize,
}

impl RawTextureSamplerBinding {
    /// The record with every field zero, false or empty.
    pub open spec fn zeroed() -> Self {
        RawTextureSamplerBinding {
            texture: 0,
            sampler: 0,
        }
    }
}

/// The parameters of a texture-sampler binding call.
pub struct TextureSamplerBinding<'a> {
    inner: RawTextureSamplerBinding,
    _marker: PhantomData<(&'a Texture, &'a Sampler)>,
}

impl<'a> View for TextureSamplerBinding<'a> {
    type V = RawTextureSamplerBinding;

    closed spec fn view(&self) -> RawTextureSamplerBinding {
        self.inner
    }
}

impl<'a> TextureSamplerBinding<'a> {
    /// A descriptor with every field zero, false or empty: the GPU library's defaults.
    pub fn new() -> (r: Self)
        ensures
            r@ == RawTextureSamplerBinding::zeroed(),
    {
        TextureSamplerBinding {
            inner: RawTextureSamplerBinding {
                texture: 0,
                sampler: 0,
            },
            _marker: PhantomData,
        }
    }

    /// The texture to bind; it must have been created for sampling.
    pub fn with_texture(self, texture: &'a Texture) -> (r: Self)
        ensures
            r@ == (RawTextureSamplerBinding { texture: texture.ll(), ..self@ }),
    {
        let mut r = self;
        r.inner.texture = texture.ll();
        r
    }

    /// The sampler to bind.
    pub fn with_sampler(self, sampler: &'a Sampler) -> (r: Self)
        ensures
            r@ == (RawTextureSamplerBinding { sampler: sampler.ll(), ..self@ }),
    {
        let mut r = self;
        r.inner.sampler = sampler.ll();
        r
    }

    /// The record as it stands, to hand to the GPU library.
    pub fn raw(&self) -> (r: &RawTextureSamplerBinding)
        ensures
            *r == self@,
    {
        &self.inner
    }
}

impl<'a> Default for TextureSamplerBinding<'a> {
    /// The same as [`new`](Self::new).
    fn default() -> (r: Self)
        ensures
            r@ == RawTextureSamplerBinding::zeroed(),
    {
        Self::new()
    }
}

/// The record that the GPU library reads for a [`StorageTextureReadWriteBinding`], field for field.
///
/// Enumerated fields hold their integer codes, floating-point fields the bit
/// patterns of their `f32` values, and resources their handles.
#[derive(Clone, Copy, PartialEq, Eq, Structural, Debug)]
pub struct RawStorageTextureReadWriteBinding {
    /// The handle of the texture; 0 for none.
    pub texture: usize,
    /// The mip level.
    pub mip_level: u32,
    /// The layer index.
    pub layer: u32,
    /// Whether the texture is cycled.
    pub cycle: bool,
}

impl RawStorageTextureReadWriteBinding {
    /// The record with every field zero, false or empty.
    pub open spec fn zeroed() -> Self {
        RawStorageTextureReadWriteBinding {
            texture: 0,
            mip_level: 0,
            layer: 0,
            cycle: false,
        }
    }
}

/// The parameters of a storage texture binding in a compute pass.
pub struct StorageTextureReadWriteBinding<'a> {
    inner: RawStorageTextureReadWriteBinding,
    _marker: PhantomData<&'a Texture>,
}

impl<'a> View for StorageTextureReadWriteBinding<'a> {
    type V = RawStorageTextureReadWriteBinding;

    closed spec fn view(&self) -> RawStorageTextureReadWriteBinding {
        self.inner
    }
}

impl<'a> StorageTextureReadWriteBinding<'a> {
    /// A descriptor with every field zero, false or empty: the GPU library's defaults.
    pub fn new() -> (r: Self)
        ensures
            r@ == RawStorageTextureReadWriteBinding::zeroed(),
    {
        StorageTextureReadWriteBinding {
            inner: RawStorageTextureReadWriteBinding {
                texture: 0,
                mip_level: 0,
                layer: 0,
                cycle: false,
            },
            _marker: PhantomData,
        }
    }

    /// The texture to bind; it must have been created for compute storage writes.
    pub fn with_texture(self, texture: &'a Texture) -> (r: Self)
        ensures
            r@ == (RawStorageTextureReadWriteBinding { texture: texture.ll(), ..self@ }),
    {
        let mut r = self;
        r.inner.texture = texture.ll();
        r
    }

    /// The mip level index to bind.
    pub fn with_mip_level(self, mip_level: u32) -> (r: Self)
        ensures
            r@ == (RawStorageTextureReadWriteBinding { mip_level: mip_level, ..self@ }),
    {
        let mut r = self;
        r.inner.mip_level = mip_level;
        r
    }

    /// The layer index to bind.
    pub fn with_layer(self, layer: u32) -> (r: Self)
        ensures
            r@ == (RawStorageTextureReadWriteBinding { layer: layer, ..self@ }),
    {
        let mut r = self;
        r.inner.layer = layer;
        r
    }

    /// `true` cycles the texture if it is already bound.
    pub fn with_cycle(self, cycle: bool) -> (r: Self)
        ensures
            r@ == (RawStorageTextureReadWriteBinding { cycle: cycle, ..self@ }),
    {
        let mut r = self;
        r.inner.cycle = cycle;
        r
    }

    /// The record as it stands, to hand to the GPU library.
    pub fn raw(&self) -> (r: &RawStorageTextureReadWriteBinding)
        ensures
            *r == self@,
    {
        &self.inner
    }
}

impl<'a> Default for StorageTextureReadWriteBinding<'a> {
    /// The same as [`new`](Self::new).
    fn default() -> (r: Self)
        ensures
            r@ == RawStorageTextureReadWriteBinding::zeroed(),
    {
        Self::new()
    }
}

/// The record that the GPU library reads for a [`StorageBufferReadWriteBinding`], field for field.
///
/// Enumerated fields hold their integer codes, floating-point fields the bit
/// patterns of their `f32` values, and resources their handles.
#[derive(Clone, Copy, PartialEq, Eq, Structural, Debug)]
pub struct RawStorageBufferReadWriteBinding {
    /// The handle of the buffer; 0 for none.
    pub buffer: usize,
    /// Whether the buffer is cycled.
    pub cycle: bool,
}

impl RawStorageBufferReadWriteBinding {
    /// The record with every field zero, false or empty.
    pub open spec fn zeroed() -> Self {
        RawStorageBufferReadWriteBinding {
            buffer: 0,
            cycle: false,
        }
    }
}

/// The parameters of a storage buffer binding in a compute pass.
pub struct StorageBufferReadWriteBinding<'a> {
    inner: RawStorageBufferReadWriteBinding,
    _marker: PhantomData<&'a Buffer>,
}

impl<'a> View for StorageBufferReadWriteBinding<'a> {
    type V = RawStorageBufferReadWriteBinding;

    closed spec fn view(&self) -> RawStorageBufferReadWriteBinding {
        self.inner
    }
}

impl<'a> StorageBufferReadWriteBinding<'a> {
    /// A descriptor with every field zero, false or empty: the GPU library's defaults.
    pub fn new() -> (r: Self)
        ensures
            r@ == RawStorageBufferReadWriteBinding::zeroed(),
    {
        StorageBufferReadWriteBinding {
            inner: RawStorageBufferReadWriteBinding {
                buffer: 0,
                cycle: false,
            },
            _marker: PhantomData,
        }
    }

    /// The buffer to bind; it must have been created for compute storage writes.
    pub fn with_buffer(self, buffer: &'a Buffer) -> (r: Self)
        ensures
            r@ == (RawStorageBufferReadWriteBinding { buffer: buffer.ll(), ..self@ }),
    {
        let mut r = self;
        r.inner.buffer = buffer.ll();
        r
    }

    /// `true` cycles the buffer if it is already bound.
    pub fn with_cycle(self, cycle: bool) -> (r: Self)
        ensures
            r@ == (RawStorageBufferReadWriteBinding { cycle: cycle, ..self@ }),
    {
        let mut r = self;
        r.inner.cycle = cycle;
        r
    }

    /// The record as it stands, to hand to the GPU library.
    pub fn raw(&self) -> (r: &RawStorageBufferReadWriteBinding)
        ensures
            *r == self@,
    {
        &self.inner
    }
}

impl<'a> Default for StorageBufferReadWriteBinding<'a> {
    /// The same as [`new`](Self::new).
    fn default() -> (r: Self)
        ensures
            r@ == RawStorageBufferReadWriteBinding::zeroed(),
    {
        Self::new()
    }
}

/// The record that the GPU library reads for a [`TextureLocation`], field for field.
///
/// Enumerated fields hold their integer codes, floating-point fields the bit
/// patterns of their `f32` values, and resources their handles.
#[derive(Clone, Copy, PartialEq, Eq, Structural, Debug)]
pub struct RawTextureLocation {
    /// The handle of the texture; 0 for none.
    pub texture: usize,
    /// The mip level.
    pub mip_level: u32,
    /// The layer index.
    pub layer: u32,
    /// The left offset.
    pub x: u32,
    /// The top offset.
    pub y: u32,
    /// The front offset.
    pub z: u32,
}

impl RawTextureLocation {
    /// The record with every field zero, false or empty.
    pub open spec fn zeroed() -> Self {
        RawTextureLocation {
            texture: 0,
            mip_level: 0,
            layer: 0,
            x: 0,
            y: 0,
            z: 0,
        }
    }
}

/// A location in a texture.
pub struct TextureLocation<'a> {
    inner: RawTextureLocation,
    _marker: PhantomData<&'a Texture>,
}

impl<'a> View for TextureLocation<'a> {
    type V = RawTextureLocation;

    closed spec fn view(&self) -> RawTextureLocation {
        self.inner
    }
}

impl<'a> TextureLocation<'a> {
    /// A descriptor with every field zero, false or empty: the GPU library's defaults.
    pub fn new() -> (r: Self)
        ensures
            r@ == RawTextureLocation::zeroed(),
    {
        TextureLocation {
            inner: RawTextureLocation {
                texture: 0,
                mip_level: 0,
                layer: 0,
                x: 0,
                y: 0,
                z: 0,
            },
            _marker: PhantomData,
        }
    }

    /// The texture used in the copy operation.
    pub fn with_texture(self, texture: &'a Texture) -> (r: Self)
        ensures
            r@ == (RawTextureLocation { texture: texture.ll(), ..self@ }),
    {
        let mut r = self;
        r.inner.texture = texture.ll();
        r
    }

    /// The mip level index of the location.
    pub fn with_mip_level(self, mip_level: u32) -> (r: Self)
        ensures
            r@ == (RawTextureLocation { mip_level: mip_level, ..self@ }),
    {
        let mut r = self;
        r.inner.mip_level = mip_level;
        r
    }

    /// The layer index of the location.
    pub fn with_layer(self, layer: u32) -> (r: Self)
        ensures
            r@ == (RawTextureLocation { layer: layer, ..self@ }),
    {
        let mut r = self;
        r.inner.layer = layer;
        r
    }

    /// The left offset of the location.
    pub fn with_x(self, x: u32) -> (r: Self)
        ensures
            r@ == (RawTextureLocation { x: x, ..self@ }),
    {
        let mut r = self;
        r.inner.x = x;
        r
    }

    /// The top offset of the location.
    pub fn with_y(self, y: u32) -> (r: Self)
        ensures
            r@ == (RawTextureLocation { y: y, ..self@ }),
    {
        let mut r = self;
        r.inner.y = y;
        r
    }

    /// The front offset of the location.
    pub fn with_z(self, z: u32) -> (r: Self)
        ensures
            r@ == (RawTextureLocation { z: z, ..self@ }),
    {
        let mut r = self;
        r.inner.z = z;
        r
    }

    /// The record as it stands, to hand to the GPU library.
    pub fn raw(&self) -> (r: &RawTextureLocation)
        ensures
            *r == self@,
    {
        &self.inner
    }
}

impl<'a> Default for TextureLocation<'a> {
    /// The same as [`new`](Self::new).
    fn default() -> (r: Self)
        ensures
            r@ == RawTextureLocation::zeroed(),
    {
        Self::new()
    }
}

} // verus!
