use sdl3_gpu::formats::{
    BufferUsageFlags, CullMode, LoadOp, ShaderFormat, ShaderFormats, StoreOp, TextureFormat,
    TextureUsage, TextureUsages, VertexElementFormat,
};
use sdl3_gpu::info::{
    Color, ColorTargetInfo, DepthStencilTargetInfo, RasterizerState, SamplerCreateInfo,
    TextureCreateInfo, VertexAttribute, VertexBufferDescription, VertexInputState,
};
use sdl3_gpu::registry::{Device, Registry};

#[test]
fn native_encodings() {
    assert_eq!(LoadOp::Load.raw(), 0);
    assert_eq!(LoadOp::Clear.raw(), 1);
    assert_eq!(LoadOp::DontCare.raw(), 2);
    assert_eq!(StoreOp::ResolveAndStore.raw(), 3);
    assert_eq!(ShaderFormat::SpirV.raw(), 2);
    assert_eq!(ShaderFormat::MetalLib.raw(), 32);
    assert_eq!(TextureUsage::Sampler.raw(), 1);
    assert_eq!(TextureUsage::ComputeSimultaneousReadWrite.raw(), 64);
    assert_eq!(TextureFormat::B8g8r8a8Unorm.raw(), 12);
    assert_eq!(TextureFormat::Astc12x12Float.raw(), 104);
    assert_eq!(BufferUsageFlags::Index.raw(), 2);
    assert_eq!(CullMode::Back.raw(), 2);
    assert_eq!(VertexElementFormat::Half4.raw(), 30);
}

#[test]
fn encodings_round_trip() {
    for raw in 0..105u32 {
        let f = TextureFormat::from_raw(raw).expect("every texture format code below 105 is known");
        assert_eq!(f.raw(), raw);
    }
    assert_eq!(TextureFormat::from_raw(105), None);
    assert_eq!(LoadOp::from_raw(LoadOp::DontCare.raw()), Some(LoadOp::DontCare));
    assert_eq!(ShaderFormat::from_raw(3), None);
}

#[test]
fn defaults_are_the_first_variant() {
    assert_eq!(LoadOp::default(), LoadOp::Load);
    assert_eq!(TextureFormat::default(), TextureFormat::Invalid);
    assert_eq!(CullMode::default(), CullMode::NoCulling);
}

#[test]
fn shader_format_sets() {
    let empty = ShaderFormats::empty();
    assert!(!empty.contains(ShaderFormat::SpirV));
    let s = ShaderFormats::of(ShaderFormat::SpirV).union(ShaderFormats::of(ShaderFormat::Msl));
    assert_eq!(s.bits, 2 | 16);
    assert!(s.contains(ShaderFormat::SpirV));
    assert!(s.contains(ShaderFormat::Msl));
    assert!(!s.contains(ShaderFormat::Dxil));
    assert!(!s.contains(ShaderFormat::Invalid));
}

#[test]
fn swapchain_format_query() {
    let mut reg = Registry::new();
    let d = match Device::new(&mut reg, 0x10, String::new()) {
        Ok(d) => d,
        Err(_) => panic!("device creation must succeed"),
    };
    assert_eq!(d.get_swapchain_texture_format(12), TextureFormat::B8g8r8a8Unorm);
    assert_eq!(d.get_swapchain_texture_format(999), TextureFormat::Invalid);
    assert_eq!(d.get_shader_formats(2 | 8).bits, 10);
}

#[test]
fn creation_info_setters() {
    let info = TextureCreateInfo::new()
        .with_format(TextureFormat::R8g8b8a8Unorm)
        .with_usage(TextureUsages::of(TextureUsage::ColorTarget).union(TextureUsages::of(TextureUsage::Sampler)))
        .with_width(16)
        .with_height(8)
        .with_num_levels(1);
    assert_eq!(info.format, TextureFormat::R8g8b8a8Unorm);
    assert_eq!(info.usage.bits, 3);
    assert!(info.usage.contains(TextureUsage::Sampler));
    assert!(!info.usage.contains(TextureUsage::DepthStencilTarget));
    assert_eq!((info.width, info.height, info.num_levels), (16, 8, 1));
    let s = SamplerCreateInfo::new().with_enable_compare(true).with_max_lod_bits(1000f32.to_bits());
    assert!(s.enable_compare);
    assert_eq!(f32::from_bits(s.max_lod_bits), 1000.0);
    let r = RasterizerState::new().with_cull_mode(CullMode::Back);
    assert_eq!(r.cull_mode, CullMode::Back);
    let c = ColorTargetInfo::new().with_load_op(LoadOp::Clear).with_clear_color(Color::rgba(1, 2, 3, 4));
    assert_eq!(c.load_op, LoadOp::Clear);
    assert_eq!(c.clear_color, Color::rgba(1, 2, 3, 4));
    let ds = DepthStencilTargetInfo::new().with_cycle(true).with_clear_stencil(7);
    assert!(ds.cycle);
    assert_eq!(ds.clear_stencil, 7);
}

#[test]
fn vertex_input_copies_descriptions() {
    let descs = [VertexBufferDescription::new().with_slot(0).with_pitch(12)];
    let attrs = [
        VertexAttribute::new().with_location(0).with_format(VertexElementFormat::Float3),
        VertexAttribute::new().with_location(1).with_offset(12),
    ];
    let v = VertexInputState::new().with_vertex_buffer_descriptions(&descs).with_vertex_attributes(&attrs);
    assert_eq!(v.vertex_buffer_descriptions.len(), 1);
    assert_eq!(v.vertex_buffer_descriptions[0].pitch, 12);
    assert_eq!(v.vertex_attributes.len(), 2);
    assert_eq!(v.vertex_attributes[1].offset, 12);
}
