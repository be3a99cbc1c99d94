use sdl3::gpu::{
    BlendFactor, BlendOp, Buffer, ColorComponentFlags, CompareOp, CullMode, FillMode, Filter,
    FrontFace, LoadOp, SampleCount, Sampler, SamplerAddressMode, SamplerMipmapMode, StencilOp,
    StoreOp, Texture, TextureFormat, TextureType, TextureUsage, TransferBuffer,
    VertexElementFormat, VertexInputRate,
};
use sdl3::info_struct::{
    BufferBinding, BufferLocation, BufferRegion, ColorTargetBlendState, ColorTargetDescription,
    ColorTargetInfo, DepthStencilState, DepthStencilTargetInfo, GraphicsPipelineTargetInfo,
    RasterizerState, RawColorTargetBlendState, RawColorTargetInfo, RawDepthStencilTargetInfo,
    RawStencilOpState, RawTextureCreateInfo, SamplerCreateInfo, StencilOpState,
    StorageBufferReadWriteBinding, StorageTextureReadWriteBinding, TextureCreateInfo,
    TextureLocation, TextureRegion, TextureSamplerBinding, TextureTransferInfo,
    TransferBufferLocation, VertexAttribute, VertexBufferDescription, VertexInputState,
};
use sdl3::pixels::Color;

#[test]
fn new_depth_stencil_target_info_is_zeroed() {
    let info = DepthStencilTargetInfo::new();
    assert_eq!(
        *info.raw(),
        RawDepthStencilTargetInfo {
            texture: 0,
            clear_depth: 0,
            load_op: 0,
            store_op: 0,
            stencil_load_op: 0,
            stencil_store_op: 0,
            cycle: false,
            clear_stencil: 0,
            mip_level: 0,
            layer: 0,
        }
    );
    assert_eq!(info.raw().load_op, LoadOp::Load.code());
    assert_eq!(info.raw().store_op, StoreOp::Store.code());
}

#[test]
fn new_texture_create_info_is_zeroed() {
    let info = TextureCreateInfo::new();
    assert_eq!(
        *info.raw(),
        RawTextureCreateInfo {
            texture_type: 0,
            format: 0,
            usage: 0,
            width: 0,
            height: 0,
            layer_count_or_depth: 0,
            num_levels: 0,
            sample_count: 0,
            props: 0,
        }
    );
    assert_eq!(info.raw().texture_type, TextureType::_2D.code());
    assert_eq!(info.raw().sample_count, SampleCount::NoMultiSampling.code());
}

#[test]
fn new_descriptors_are_zeroed() {
    let s = SamplerCreateInfo::new();
    let r = s.raw();
    assert_eq!((r.min_filter, r.mag_filter, r.mipmap_mode), (0, 0, 0));
    assert_eq!((r.address_mode_u, r.address_mode_v, r.address_mode_w), (0, 0, 0));
    assert_eq!((r.mip_lod_bias, r.max_anisotropy, r.min_lod, r.max_lod), (0, 0, 0, 0));
    assert_eq!(r.compare_op, CompareOp::Invalid.code());
    assert!(!r.enable_anisotropy && !r.enable_compare);
    assert_eq!(r.props, 0);

    let d = DepthStencilState::new();
    assert_eq!(d.raw().back_stencil_state, *StencilOpState::new().raw());
    assert_eq!(
        d.raw().front_stencil_state,
        RawStencilOpState { fail_op: 0, pass_op: 0, depth_fail_op: 0, compare_op: 0 }
    );
    assert!(!d.raw().enable_depth_test && !d.raw().enable_depth_write && !d.raw().enable_stencil_test);

    let v = VertexInputState::new();
    assert!(v.raw().vertex_buffer_descriptions.is_none());
    assert!(v.raw().vertex_attributes.is_none());
    assert_eq!((v.raw().num_vertex_buffers, v.raw().num_vertex_attributes), (0, 0));

    let g = GraphicsPipelineTargetInfo::new();
    assert!(g.raw().color_target_descriptions.is_none());
    assert_eq!(g.raw().num_color_targets, 0);
    assert!(!g.raw().has_depth_stencil_target);

    assert_eq!(RasterizerState::new().raw().cull_mode, CullMode::NoCull.code());
    assert_eq!(BufferBinding::new().raw().buffer, 0);
    assert_eq!(TextureLocation::new().raw().x, 0);
    assert_eq!(TextureSamplerBinding::new().raw().sampler, 0);
    assert!(!StorageBufferReadWriteBinding::new().raw().cycle);
    assert_eq!(VertexAttribute::new().raw().format, VertexElementFormat::Invalid.code());
    assert_eq!(ColorTargetDescription::new().raw().blend_state, *ColorTargetBlendState::new().raw());
}

#[test]
fn setter_changes_only_its_field() {
    let before = TextureCreateInfo::new().with_width(640).with_height(480);
    let after = TextureCreateInfo::new().with_width(640).with_height(480).with_num_levels(3);
    let mut expected = *before.raw();
    expected.num_levels = 3;
    assert_eq!(*after.raw(), expected);
    assert_eq!(after.raw().width, 640);
    assert_eq!(after.raw().height, 480);
}

#[test]
fn setters_record_codes_and_values() {
    let info = TextureCreateInfo::new()
        .with_type(TextureType::CubeArray)
        .with_format(TextureFormat(12))
        .with_usage(TextureUsage(1 | 2))
        .with_layer_count_or_depth(6)
        .with_sample_count(SampleCount::MSAA8x);
    let r = info.raw();
    assert_eq!(r.texture_type, 4);
    assert_eq!(r.format, 12);
    assert_eq!(r.usage, 3);
    assert_eq!(r.layer_count_or_depth, 6);
    assert_eq!(r.sample_count, 3);

    let s = SamplerCreateInfo::new()
        .with_min_filter(Filter::Linear)
        .with_mag_filter(Filter::Nearest)
        .with_mipmap_mode(SamplerMipmapMode::Linear)
        .with_address_mode_u(SamplerAddressMode::ClampToEdge)
        .with_address_mode_v(SamplerAddressMode::MirroredRepeat)
        .with_address_mode_w(SamplerAddressMode::Repeat)
        .with_compare_op(CompareOp::Always)
        .with_max_anisotropy_bits(4.0f32.to_bits())
        .with_enable_anisotropy(true);
    let r = s.raw();
    assert_eq!((r.min_filter, r.mag_filter, r.mipmap_mode), (1, 0, 1));
    assert_eq!((r.address_mode_u, r.address_mode_v, r.address_mode_w), (2, 1, 0));
    assert_eq!(r.compare_op, 8);
    assert_eq!(f32::from_bits(r.max_anisotropy), 4.0);
    assert!(r.enable_anisotropy);
    assert!(!r.enable_compare);
}

#[test]
fn depth_stencil_target_records_texture_handle() {
    let texture = Texture::from_ll(0x1000);
    let info = DepthStencilTargetInfo::new()
        .with_texture(&texture)
        .with_clear_depth_bits(1.0f32.to_bits())
        .with_load_op(LoadOp::Clear)
        .with_store_op(StoreOp::DontCare)
        .with_stencil_load_op(LoadOp::DontCare)
        .with_stencil_store_op(StoreOp::Store)
        .with_cycle(true)
        .with_clear_stencil(7);
    let r = info.raw();
    assert_eq!(r.texture, 0x1000);
    assert_eq!(f32::from_bits(r.clear_depth), 1.0);
    assert_eq!((r.load_op, r.store_op, r.stencil_load_op, r.stencil_store_op), (1, 1, 2, 0));
    assert!(r.cycle);
    assert_eq!(r.clear_stencil, 7);
}

#[test]
fn clear_color_keeps_channels() {
    let texture = Texture::from_ll(8);
    let resolve = Texture::from_ll(16);
    let info = ColorTargetInfo::new()
        .with_texture(&texture)
        .with_clear_color(Color::RGBA(255, 0, 128, 255))
        .with_load_op(LoadOp::Clear)
        .with_store_op(StoreOp::ResolveAndStore)
        .with_resolve_texture(&resolve)
        .with_resolve_mip_level(1)
        .with_resolve_layer(2)
        .with_mip_level(3)
        .with_layer_or_depth_plane(4)
        .with_cycle(true)
        .with_cycle_resolve_texture(true);
    let r: &RawColorTargetInfo = info.raw();
    assert_eq!(r.clear_color, Color { r: 255, g: 0, b: 128, a: 255 });
    assert_eq!(r.clear_color.r as f32 / 255.0, 1.0);
    assert_eq!(r.clear_color.g as f32 / 255.0, 0.0);
    assert!((r.clear_color.b as f32 / 255.0 - 128.0 / 255.0).abs() < 1e-6);
    assert_eq!((r.texture, r.resolve_texture), (8, 16));
    assert_eq!((r.load_op, r.store_op), (1, 3));
    assert_eq!((r.resolve_mip_level, r.resolve_layer, r.mip_level, r.layer_or_depth_plane), (1, 2, 3, 4));
    assert!(r.cycle && r.cycle_resolve_texture);
}

#[test]
fn rgb_color_is_opaque() {
    assert_eq!(Color::RGB(1, 2, 3), Color { r: 1, g: 2, b: 3, a: 255 });
}

#[test]
fn regions_and_locations() {
    let texture = Texture::from_ll(32);
    let r = TextureRegion::new()
        .with_texture(&texture)
        .with_mip_level(1)
        .with_layer(2)
        .with_x(3)
        .with_y(4)
        .with_z(5)
        .with_width(6)
        .with_height(7)
        .with_depth(8);
    let raw = r.raw();
    assert_eq!(
        (raw.texture, raw.mip_level, raw.layer, raw.x, raw.y, raw.z, raw.w, raw.h, raw.d),
        (32, 1, 2, 3, 4, 5, 6, 7, 8)
    );

    let l = TextureLocation::new().with_texture(&texture).with_mip_level(1).with_layer(2).with_x(3).with_y(4).with_z(5);
    let raw = l.raw();
    assert_eq!((raw.texture, raw.mip_level, raw.layer, raw.x, raw.y, raw.z), (32, 1, 2, 3, 4, 5));

    let tb = TransferBuffer::from_ll(48);
    let t = TextureTransferInfo::new()
        .with_transfer_buffer(&tb)
        .with_offset(256)
        .with_pixels_per_row(64)
        .with_rows_per_layer(32);
    let raw = t.raw();
    assert_eq!((raw.transfer_buffer, raw.offset, raw.pixels_per_row, raw.rows_per_layer), (48, 256, 64, 32));

    let loc = TransferBufferLocation::new().with_transfer_buffer(&tb).with_offset(9);
    assert_eq!((loc.raw().transfer_buffer, loc.raw().offset), (48, 9));

    let buffer = Buffer::from_ll(64);
    let b = BufferBinding::new().with_buffer(&buffer).with_offset(12);
    assert_eq!((b.raw().buffer, b.raw().offset), (64, 12));
    let bl = BufferLocation::new().with_buffer(&buffer).with_offset(13);
    assert_eq!((bl.raw().buffer, bl.raw().offset), (64, 13));
    let br = BufferRegion::new().with_buffer(&buffer).with_offset(14).with_size(100);
    assert_eq!((br.raw().buffer, br.raw().offset, br.raw().size), (64, 14, 100));
}

#[test]
fn bindings_record_handles() {
    let texture = Texture::from_ll(80);
    let sampler = Sampler::from_ll(96);
    let b = TextureSamplerBinding::new().with_texture(&texture).with_sampler(&sampler);
    assert_eq!((b.raw().texture, b.raw().sampler), (80, 96));

    let s = StorageTextureReadWriteBinding::new().with_texture(&texture).with_mip_level(2).with_layer(3).with_cycle(true);
    assert_eq!((s.raw().texture, s.raw().mip_level, s.raw().layer, s.raw().cycle), (80, 2, 3, true));

    let buffer = Buffer::from_ll(112);
    let s = StorageBufferReadWriteBinding::new().with_buffer(&buffer).with_cycle(true);
    assert_eq!((s.raw().buffer, s.raw().cycle), (112, true));
}

#[test]
fn vertex_input_state_records_slices_and_counts() {
    let buffers = [
        VertexBufferDescription::new().with_slot(0).with_pitch(12).with_input_rate(VertexInputRate::Vertex),
        VertexBufferDescription::new().with_slot(1).with_pitch(16).with_input_rate(VertexInputRate::Instance),
    ];
    let attributes = [
        VertexAttribute::new().with_location(0).with_buffer_slot(0).with_format(VertexElementFormat::Float3).with_offset(0),
        VertexAttribute::new().with_location(1).with_buffer_slot(1).with_format(VertexElementFormat::Ubyte4Norm).with_offset(4),
        VertexAttribute::new().with_location(2).with_buffer_slot(1).with_format(VertexElementFormat::Half4).with_offset(8),
    ];
    let state = VertexInputState::new()
        .with_vertex_buffer_descriptions(&buffers)
        .with_vertex_attributes(&attributes);
    let r = state.raw();
    assert_eq!(r.num_vertex_buffers, 2);
    assert_eq!(r.num_vertex_attributes, 3);
    assert_eq!(r.vertex_buffer_descriptions.unwrap().len(), 2);
    let b1 = r.vertex_buffer_descriptions.unwrap()[1].raw();
    assert_eq!((b1.slot, b1.pitch, b1.input_rate, b1.instance_step_rate), (1, 16, 1, 0));
    let a1 = r.vertex_attributes.unwrap()[1].raw();
    assert_eq!((a1.location, a1.buffer_slot, a1.format, a1.offset), (1, 1, 20, 4));
    assert_eq!(r.vertex_attributes.unwrap()[0].raw().format, 11);
    assert_eq!(r.vertex_attributes.unwrap()[2].raw().format, 30);

    let empty: [VertexAttribute; 0] = [];
    let state = VertexInputState::new().with_vertex_attributes(&empty);
    assert_eq!(state.raw().num_vertex_attributes, 0);
    assert!(state.raw().vertex_attributes.is_some());
}

#[test]
fn rasterizer_state_records_modes_and_bits() {
    let r = RasterizerState::new()
        .with_fill_mode(FillMode::Line)
        .with_cull_mode(CullMode::Back)
        .with_front_face(FrontFace::Clockwise)
        .with_depth_bias_constant_factor_bits(0.5f32.to_bits())
        .with_depth_bias_clamp_bits(2.0f32.to_bits())
        .with_depth_slope_factor_bits((-1.0f32).to_bits())
        .with_enable_depth_bias(true)
        .with_enable_depth_clip(true);
    let raw = r.raw();
    assert_eq!((raw.fill_mode, raw.cull_mode, raw.front_face), (1, 2, 1));
    assert_eq!(f32::from_bits(raw.depth_bias_constant_factor), 0.5);
    assert_eq!(f32::from_bits(raw.depth_bias_clamp), 2.0);
    assert_eq!(f32::from_bits(raw.depth_bias_slope_factor), -1.0);
    assert!(raw.enable_depth_bias && raw.enable_depth_clip);
}

#[test]
fn depth_stencil_state_nests_stencil_states() {
    let front = StencilOpState::new()
        .with_compare_op(CompareOp::Equal)
        .with_fail_op(StencilOp::Keep)
        .with_pass_op(StencilOp::Replace)
        .with_depth_fail_op(StencilOp::DecrementAndWrap);
    let back = StencilOpState::new().with_compare_op(CompareOp::Never);
    let state = DepthStencilState::new()
        .with_compare_op(CompareOp::LessOrEqual)
        .with_front_stencil_state(front)
        .with_back_stencil_state(back)
        .with_compare_mask(0xF0)
        .with_write_mask(0x0F)
        .with_enable_depth_test(true)
        .with_enable_depth_write(true)
        .with_enable_stencil_test(true);
    let r = state.raw();
    assert_eq!(r.compare_op, 4);
    assert_eq!(
        r.front_stencil_state,
        RawStencilOpState { fail_op: 1, pass_op: 3, depth_fail_op: 8, compare_op: 3 }
    );
    assert_eq!(
        r.back_stencil_state,
        RawStencilOpState { fail_op: 0, pass_op: 0, depth_fail_op: 0, compare_op: 1 }
    );
    assert_eq!((r.compare_mask, r.write_mask), (0xF0, 0x0F));
    assert!(r.enable_depth_test && r.enable_depth_write && r.enable_stencil_test);
}

#[test]
fn blend_state_and_color_target_description() {
    let blend = ColorTargetBlendState::new()
        .with_src_color_blendfactor(BlendFactor::SrcAlpha)
        .with_dst_color_blendfactor(BlendFactor::OneMinusSrcAlpha)
        .with_color_blend_op(BlendOp::Add)
        .with_src_alpha_blendfactor(BlendFactor::One)
        .with_dst_alpha_blendfactor(BlendFactor::SrcAlphaSaturate)
        .with_alpha_blend_op(BlendOp::Max)
        .with_color_write_mask(ColorComponentFlags(0x1 | 0x8))
        .with_enable_blend(true)
        .with_enable_color_write_mask(true);
    let expected = RawColorTargetBlendState {
        src_color_blendfactor: 7,
        dst_color_blendfactor: 8,
        color_blend_op: 1,
        src_alpha_blendfactor: 2,
        dst_alpha_blendfactor: 13,
        alpha_blend_op: 5,
        color_write_mask: 9,
        enable_blend: true,
        enable_color_write_mask: true,
    };
    assert_eq!(*blend.raw(), expected);
    let desc = ColorTargetDescription::new().with_format(TextureFormat(4)).with_blend_state(blend);
    assert_eq!(desc.raw().format, 4);
    assert_eq!(desc.raw().blend_state, expected);

    let descs = [desc, ColorTargetDescription::new()];
    let target = GraphicsPipelineTargetInfo::new()
        .with_color_target_descriptions(&descs)
        .with_depth_stencil_format(TextureFormat(62))
        .with_has_depth_stencil_target(true);
    assert_eq!(target.raw().num_color_targets, 2);
    assert_eq!(target.raw().depth_stencil_format, 62);
    assert!(target.raw().has_depth_stencil_target);
    assert_eq!(target.raw().color_target_descriptions.unwrap()[0].raw().blend_state, expected);
}

#[test]
fn enum_codes_follow_declaration_order() {
    assert_eq!(LoadOp::DontCare.code(), 2);
    assert_eq!(StoreOp::Resolve.code(), 2);
    assert_eq!(TextureType::_3D.code(), 2);
    assert_eq!(SampleCount::MSAA4x.code(), 2);
    assert_eq!(CompareOp::GreaterOrEqual.code(), 7);
    assert_eq!(StencilOp::IncrementAndWrap.code(), 7);
    assert_eq!(BlendFactor::ConstantColor.code(), 11);
    assert_eq!(BlendOp::ReverseSubtract.code(), 3);
    assert_eq!(FrontFace::CounterClockwise.code(), 0);
    assert_eq!(CullMode::Front.code(), 1);
    assert_eq!(VertexElementFormat::Ushort4Norm.code(), 28);
}

#[test]
fn default_is_new() {
    assert_eq!(*TextureCreateInfo::default().raw(), *TextureCreateInfo::new().raw());
    assert_eq!(*ColorTargetInfo::default().raw(), *ColorTargetInfo::new().raw());
    assert_eq!(*DepthStencilState::default().raw(), *DepthStencilState::new().raw());
    assert_eq!(VertexInputState::default().raw().num_vertex_buffers, 0);
}
