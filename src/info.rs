use vstd::prelude::*;

use std::marker::PhantomData;

use crate::formats::{
    CompareOp, CullMode, FillMode, Filter, FrontFace, LoadOp, SampleCount, SamplerAddressMode,
    SamplerMipmapMode, StencilOp, StoreOp, TextureFormat, TextureType, TextureUsages,
    VertexElementFormat, VertexInputRate,
};
use crate::resources::{Buffer, Sampler, Texture, TransferBuffer};

verus! {

/// An 8-bit RGBA color.
#[derive(Clone, Copy, Debug, PartialEq, Eq, Structural)]
pub struct Color {
    pub r: u8,
    pub g: u8,
    pub b: u8,
    pub a: u8,
}

impl Color {
    pub fn rgba(r: u8, g: u8, b: u8, a: u8) -> (c: Color)
        ensures
            c == (Color { r, g, b, a }),
    {
        Color { r, g, b, a }
    }
}

/// A color target of a render pass.
#[derive(Clone, Copy, Debug)]
pub struct ColorTargetInfo<'a> {
    /// The native handle of the target texture.
    pub texture: u64,
    pub load_op: LoadOp,
    pub store_op: StoreOp,
    /// The color the target is cleared to when `load_op` is `Clear`.
    pub clear_color: Color,
    /// Ties the value to the borrow of the texture it names, so a swapchain texture
    /// cannot be kept in it past its command buffer.
    pub scope: PhantomData<&'a ()>,
}

impl<'a> ColorTargetInfo<'a> {
    /// Every field at its default.
    pub fn new() -> (r: Self)
        ensures
            r == (ColorTargetInfo { texture: 0, load_op: LoadOp::Load, store_op: StoreOp::Store, clear_color: Color { r: 0, g: 0, b: 0, a: 0 }, scope: PhantomData }),
    {
        ColorTargetInfo { texture: 0, load_op: LoadOp::Load, store_op: StoreOp::Store, clear_color: Color { r: 0, g: 0, b: 0, a: 0 }, scope: PhantomData }
    }

    pub fn with_texture(self, texture: &Texture<'a>) -> (r: Self)
        ensures
            r == (ColorTargetInfo { texture: texture.raw_spec(), ..self }),
    {
        ColorTargetInfo { texture: texture.raw(), ..self }
    }

    pub fn with_load_op(self, value: LoadOp) -> (r: Self)
        ensures
            r == (ColorTargetInfo { load_op: value, ..self }),
    {
        ColorTargetInfo { load_op: value, ..self }
    }

    pub fn with_store_op(self, value: StoreOp) -> (r: Self)
        ensures
            r == (ColorTargetInfo { store_op: value, ..self }),
    {
        ColorTargetInfo { store_op: value, ..self }
    }

    pub fn with_clear_color(self, value: Color) -> (r: Self)
        ensures
            r == (ColorTargetInfo { clear_color: value, ..self }),
    {
        ColorTargetInfo { clear_color: value, ..self }
    }
}

/// The depth-stencil target of a render pass.
#[derive(Clone, Copy, Debug)]
pub struct DepthStencilTargetInfo<'a> {
    /// The native handle of the target texture.
    pub texture: u64,
    /// The IEEE-754 bits of the depth the target is cleared to.
    pub clear_depth_bits: u32,
    pub load_op: LoadOp,
    pub store_op: StoreOp,
    pub stencil_load_op: LoadOp,
    pub stencil_store_op: StoreOp,
    /// Whether the texture is cycled when it is still in use.
    pub cycle: bool,
    pub clear_stencil: u8,
    /// Ties the value to the borrow of the texture it names, so a swapchain texture
    /// cannot be kept in it past its command buffer.
    pub scope: PhantomData<&'a ()>,
}

impl<'a> DepthStencilTargetInfo<'a> {
    /// Every field at its default.
    pub fn new() -> (r: Self)
        ensures
            r == (DepthStencilTargetInfo { texture: 0, clear_depth_bits: 0, load_op: LoadOp::Load, store_op: StoreOp::Store, stencil_load_op: LoadOp::Load, stencil_store_op: StoreOp::Store, cycle: false, clear_stencil: 0, scope: PhantomData }),
    {
        DepthStencilTargetInfo { texture: 0, clear_depth_bits: 0, load_op: LoadOp::Load, store_op: StoreOp::Store, stencil_load_op: LoadOp::Load, stencil_store_op: StoreOp::Store, cycle: false, clear_stencil: 0, scope: PhantomData }
    }

    pub fn with_texture(self, texture: &Texture<'a>) -> (r: Self)
        ensures
            r == (DepthStencilTargetInfo { texture: texture.raw_spec(), ..self }),
    {
        DepthStencilTargetInfo { texture: texture.raw(), ..self }
    }

    pub fn with_clear_depth_bits(self, value: u32) -> (r: Self)
        ensures
            r == (DepthStencilTargetInfo { clear_depth_bits: value, ..self }),
    {
        DepthStencilTargetInfo { clear_depth_bits: value, ..self }
    }

    pub fn with_load_op(self, value: LoadOp) -> (r: Self)
        ensures
            r == (DepthStencilTargetInfo { load_op: value, ..self }),
    {
        DepthStencilTargetInfo { load_op: value, ..self }
    }

    pub fn with_store_op(self, value: StoreOp) -> (r: Self)
        ensures
            r == (DepthStencilTargetInfo { store_op: value, ..self }),
    {
        DepthStencilTargetInfo { store_op: value, ..self }
    }

    pub fn with_stencil_load_op(self, value: LoadOp) -> (r: Self)
        ensures
            r == (DepthStencilTargetInfo { stencil_load_op: value, ..self }),
    {
        DepthStencilTargetInfo { stencil_load_op: value, ..self }
    }

    pub fn with_stencil_store_op(self, value: StoreOp) -> (r: Self)
        ensures
            r == (DepthStencilTargetInfo { stencil_store_op: value, ..self }),
    {
        DepthStencilTargetInfo { stencil_store_op: value, ..self }
    }

    pub fn with_cycle(self, value: bool) -> (r: Self)
        ensures
            r == (DepthStencilTargetInfo { cycle: value, ..self }),
    {
        DepthStencilTargetInfo { cycle: value, ..self }
    }

    pub fn with_clear_stencil(self, value: u8) -> (r: Self)
        ensures
            r == (DepthStencilTargetInfo { clear_stencil: value, ..self }),
    {
        DepthStencilTargetInfo { clear_stencil: value, ..self }
    }
}

/// A buffer bound at an offset.
#[derive(Clone, Copy, Debug)]
pub struct BufferBinding {
    /// The native handle of the buffer.
    pub buffer: u64,
    pub offset: u32,
}

impl BufferBinding {
    /// Every field at its default.
    pub fn new() -> (r: Self)
        ensures
            r == (BufferBinding { buffer: 0, offset: 0 }),
    {
        BufferBinding { buffer: 0, offset: 0 }
    }

    pub fn with_buffer(self, buffer: &Buffer) -> (r: Self)
        ensures
            r == (BufferBinding { buffer: buffer.handle().raw_spec(), ..self }),
    {
        BufferBinding { buffer: buffer.raw(), ..self }
    }

    pub fn with_offset(self, offset: u32) -> (r: Self)
        ensures
            r == (BufferBinding { offset: offset, ..self }),
    {
        BufferBinding { offset: offset, ..self }
    }
}

/// A texture bound together with a sampler.
#[derive(Clone, Copy, Debug)]
pub struct TextureSamplerBinding {
    /// The native handle of the texture.
    pub texture: u64,
    /// The native handle of the sampler.
    pub sampler: u64,
}

impl TextureSamplerBinding {
    /// Every field at its default.
    pub fn new() -> (r: Self)
        ensures
            r == (TextureSamplerBinding { texture: 0, sampler: 0 }),
    {
        TextureSamplerBinding { texture: 0, sampler: 0 }
    }

    /// The texture to bind; it must have been created with sampler usage.
    pub fn with_texture(self, texture: &Texture<'static>) -> (r: Self)
        ensures
            r == (TextureSamplerBinding { texture: texture.raw_spec(), ..self }),
    {
        TextureSamplerBinding { texture: texture.raw(), ..self }
    }

    /// The sampler to bind.
    pub fn with_sampler(self, sampler: &Sampler) -> (r: Self)
        ensures
            r == (TextureSamplerBinding { sampler: sampler.handle().raw_spec(), ..self }),
    {
        TextureSamplerBinding { sampler: sampler.raw(), ..self }
    }
}

/// Where in a transfer buffer a copy reads or writes.
#[derive(Clone, Copy, Debug)]
pub struct TransferBufferLocation {
    pub transfer_buffer: u64,
    pub slot: Option<usize>,
    pub offset: u32,
}

impl TransferBufferLocation {
    pub fn new() -> (r: Self)
        ensures
            r == (TransferBufferLocation { transfer_buffer: 0, slot: None, offset: 0 }),
    {
        TransferBufferLocation { transfer_buffer: 0, slot: None, offset: 0 }
    }

    pub fn with_transfer_buffer(self, transfer_buffer: &TransferBuffer) -> (r: Self)
        ensures
            r == (TransferBufferLocation {
                transfer_buffer: transfer_buffer.handle().raw_spec(),
                slot: Some(transfer_buffer.handle().id() as usize),
                ..self
            }),
    {
        TransferBufferLocation {
            transfer_buffer: transfer_buffer.raw(),
            slot: Some(transfer_buffer.slot()),
            ..self
        }
    }

    pub fn with_offset(self, offset: u32) -> (r: Self)
        ensures
            r == (TransferBufferLocation { offset, ..self }),
    {
        TransferBufferLocation { offset, ..self }
    }
}

/// A region of a GPU buffer.
#[derive(Clone, Copy, Debug)]
pub struct BufferRegion {
    /// The native handle of the buffer.
    pub buffer: u64,
    pub offset: u32,
    pub size: u32,
}

impl BufferRegion {
    /// Every field at its default.
    pub fn new() -> (r: Self)
        ensures
            r == (BufferRegion { buffer: 0, offset: 0, size: 0 }),
    {
        BufferRegion { buffer: 0, offset: 0, size: 0 }
    }

    pub fn with_buffer(self, buffer: &Buffer) -> (r: Self)
        ensures
            r == (BufferRegion { buffer: buffer.handle().raw_spec(), ..self }),
    {
        BufferRegion { buffer: buffer.raw(), ..self }
    }

    pub fn with_offset(self, offset: u32) -> (r: Self)
        ensures
            r == (BufferRegion { offset: offset, ..self }),
    {
        BufferRegion { offset: offset, ..self }
    }

    pub fn with_size(self, size: u32) -> (r: Self)
        ensures
            r == (BufferRegion { size: size, ..self }),
    {
        BufferRegion { size: size, ..self }
    }
}

/// Where in a transfer buffer the image data of a texture copy lies.
#[derive(Clone, Copy, Debug)]
pub struct TextureTransferInfo {
    /// The native handle of the transfer buffer.
    pub transfer_buffer: u64,
    /// The registry slot of the transfer buffer, once one is set.
    pub slot: Option<usize>,
    /// The starting byte of the image data in the transfer buffer.
    pub offset: u32,
    /// The number of pixels from one row to the next.
    pub pixels_per_row: u32,
    /// The number of rows from one layer or depth slice to the next.
    pub rows_per_layer: u32,
}

impl TextureTransferInfo {
    /// Every field at its default.
    pub fn new() -> (r: Self)
        ensures
            r == (TextureTransferInfo { transfer_buffer: 0, slot: None, offset: 0, pixels_per_row: 0, rows_per_layer: 0 }),
    {
        TextureTransferInfo { transfer_buffer: 0, slot: None, offset: 0, pixels_per_row: 0, rows_per_layer: 0 }
    }

    /// The transfer buffer used in the transfer operation.
    pub fn with_transfer_buffer(self, buffer: &TransferBuffer) -> (r: Self)
        ensures
            r == (TextureTransferInfo { transfer_buffer: buffer.handle().raw_spec(), slot: Some(buffer.handle().id() as usize), ..self }),
    {
        TextureTransferInfo { transfer_buffer: buffer.raw(), slot: Some(buffer.slot()), ..self }
    }

    /// The starting byte of the image data in the transfer buffer.
    pub fn with_offset(self, offset: u32) -> (r: Self)
        ensures
            r == (TextureTransferInfo { offset: offset, ..self }),
    {
        TextureTransferInfo { offset: offset, ..self }
    }

    /// The number of pixels from one row to the next.
    pub fn with_pixels_per_row(self, value: u32) -> (r: Self)
        ensures
            r == (TextureTransferInfo { pixels_per_row: value, ..self }),
    {
        TextureTransferInfo { pixels_per_row: value, ..self }
    }

    /// The number of rows from one layer or depth slice to the next.
    pub fn with_rows_per_layer(self, value: u32) -> (r: Self)
        ensures
            r == (TextureTransferInfo { rows_per_layer: value, ..self }),
    {
        TextureTransferInfo { rows_per_layer: value, ..self }
    }
}

/// A region of a texture.
#[derive(Clone, Copy, Debug)]
pub struct TextureRegion<'a> {
    /// The native handle of the texture.
    pub texture: u64,
    pub mip_level: u32,
    pub layer: u32,
    pub x: u32,
    pub y: u32,
    pub z: u32,
    pub w: u32,
    pub h: u32,
    pub d: u32,
    /// Ties the value to the borrow of the texture it names, so a swapchain texture
    /// cannot be kept in it past its command buffer.
    pub scope: PhantomData<&'a ()>,
}

impl<'a> TextureRegion<'a> {
    /// Every field at its default.
    pub fn new() -> (r: Self)
        ensures
            r == (TextureRegion { texture: 0, mip_level: 0, layer: 0, x: 0, y: 0, z: 0, w: 0, h: 0, d: 0, scope: PhantomData }),
    {
        TextureRegion { texture: 0, mip_level: 0, layer: 0, x: 0, y: 0, z: 0, w: 0, h: 0, d: 0, scope: PhantomData }
    }

    /// The texture used in the copy operation.
    pub fn with_texture(self, texture: &Texture<'a>) -> (r: Self)
        ensures
            r == (TextureRegion { texture: texture.raw_spec(), ..self }),
    {
        TextureRegion { texture: texture.raw(), ..self }
    }

    /// The mip level index to transfer.
    pub fn with_mip_level(self, mip_level: u32) -> (r: Self)
        ensures
            r == (TextureRegion { mip_level: mip_level, ..self }),
    {
        TextureRegion { mip_level: mip_level, ..self }
    }

    /// The layer index to transfer.
    pub fn with_layer(self, layer: u32) -> (r: Self)
        ensures
            r == (TextureRegion { layer: layer, ..self }),
    {
        TextureRegion { layer: layer, ..self }
    }

    /// The left offset of the region.
    pub fn with_x(self, x: u32) -> (r: Self)
        ensures
            r == (TextureRegion { x: x, ..self }),
    {
        TextureRegion { x: x, ..self }
    }

    /// The top offset of the region.
    pub fn with_y(self, y: u32) -> (r: Self)
        ensures
            r == (TextureRegion { y: y, ..self }),
    {
        TextureRegion { y: y, ..self }
    }

    /// The front offset of the region.
    pub fn with_z(self, z: u32) -> (r: Self)
        ensures
            r == (TextureRegion { z: z, ..self }),
    {
        TextureRegion { z: z, ..self }
    }

    /// The width of the region.
    pub fn with_width(self, width: u32) -> (r: Self)
        ensures
            r == (TextureRegion { w: width, ..self }),
    {
        TextureRegion { w: width, ..self }
    }

    /// The height of the region.
    pub fn with_height(self, height: u32) -> (r: Self)
        ensures
            r == (TextureRegion { h: height, ..self }),
    {
        TextureRegion { h: height, ..self }
    }

    /// The depth of the region.
    pub fn with_depth(self, depth: u32) -> (r: Self)
        ensures
            r == (TextureRegion { d: depth, ..self }),
    {
        TextureRegion { d: depth, ..self }
    }
}

/// The parameters of a sampler. Floating-point parameters are held as their IEEE-754 bits.
#[derive(Clone, Copy, Debug)]
pub struct SamplerCreateInfo {
    pub min_filter: Filter,
    pub mag_filter: Filter,
    pub mipmap_mode: SamplerMipmapMode,
    pub address_mode_u: SamplerAddressMode,
    pub address_mode_v: SamplerAddressMode,
    pub address_mode_w: SamplerAddressMode,
    pub mip_lod_bias_bits: u32,
    pub max_anisotropy_bits: u32,
    pub compare_op: CompareOp,
    pub min_lod_bits: u32,
    pub max_lod_bits: u32,
    pub enable_anisotropy: bool,
    pub enable_compare: bool,
}

impl SamplerCreateInfo {
    /// Every field at its default.
    pub fn new() -> (r: Self)
        ensures
            r == (SamplerCreateInfo { min_filter: Filter::Nearest, mag_filter: Filter::Nearest, mipmap_mode: SamplerMipmapMode::Nearest, address_mode_u: SamplerAddressMode::Repeat, address_mode_v: SamplerAddressMode::Repeat, address_mode_w: SamplerAddressMode::Repeat, mip_lod_bias_bits: 0, max_anisotropy_bits: 0, compare_op: CompareOp::Invalid, min_lod_bits: 0, max_lod_bits: 0, enable_anisotropy: false, enable_compare: false }),
    {
        SamplerCreateInfo { min_filter: Filter::Nearest, mag_filter: Filter::Nearest, mipmap_mode: SamplerMipmapMode::Nearest, address_mode_u: SamplerAddressMode::Repeat, address_mode_v: SamplerAddressMode::Repeat, address_mode_w: SamplerAddressMode::Repeat, mip_lod_bias_bits: 0, max_anisotropy_bits: 0, compare_op: CompareOp::Invalid, min_lod_bits: 0, max_lod_bits: 0, enable_anisotropy: false, enable_compare: false }
    }

    /// The minification filter to apply to lookups.
    pub fn with_min_filter(self, filter: Filter) -> (r: Self)
        ensures
            r == (SamplerCreateInfo { min_filter: filter, ..self }),
    {
        SamplerCreateInfo { min_filter: filter, ..self }
    }

    /// The magnification filter to apply to lookups.
    pub fn with_mag_filter(self, filter: Filter) -> (r: Self)
        ensures
            r == (SamplerCreateInfo { mag_filter: filter, ..self }),
    {
        SamplerCreateInfo { mag_filter: filter, ..self }
    }

    /// The mipmap filter to apply to lookups.
    pub fn with_mipmap_mode(self, mode: SamplerMipmapMode) -> (r: Self)
        ensures
            r == (SamplerCreateInfo { mipmap_mode: mode, ..self }),
    {
        SamplerCreateInfo { mipmap_mode: mode, ..self }
    }

    /// The addressing mode for U coordinates outside [0, 1).
    pub fn with_address_mode_u(self, mode: SamplerAddressMode) -> (r: Self)
        ensures
            r == (SamplerCreateInfo { address_mode_u: mode, ..self }),
    {
        SamplerCreateInfo { address_mode_u: mode, ..self }
    }

    /// The addressing mode for V coordinates outside [0, 1).
    pub fn with_address_mode_v(self, mode: SamplerAddressMode) -> (r: Self)
        ensures
            r == (SamplerCreateInfo { address_mode_v: mode, ..self }),
    {
        SamplerCreateInfo { address_mode_v: mode, ..self }
    }

    /// The addressing mode for W coordinates outside [0, 1).
    pub fn with_address_mode_w(self, mode: SamplerAddressMode) -> (r: Self)
        ensures
            r == (SamplerCreateInfo { address_mode_w: mode, ..self }),
    {
        SamplerCreateInfo { address_mode_w: mode, ..self }
    }

    /// The bits of the bias added to the mipmap LOD calculation.
    pub fn with_mip_lod_bias_bits(self, value: u32) -> (r: Self)
        ensures
            r == (SamplerCreateInfo { mip_lod_bias_bits: value, ..self }),
    {
        SamplerCreateInfo { mip_lod_bias_bits: value, ..self }
    }

    /// The bits of the anisotropy clamp; ignored unless anisotropy is enabled.
    pub fn with_max_anisotropy_bits(self, value: u32) -> (r: Self)
        ensures
            r == (SamplerCreateInfo { max_anisotropy_bits: value, ..self }),
    {
        SamplerCreateInfo { max_anisotropy_bits: value, ..self }
    }

    /// The comparison operator applied to fetched data before filtering.
    pub fn with_compare_op(self, value: CompareOp) -> (r: Self)
        ensures
            r == (SamplerCreateInfo { compare_op: value, ..self }),
    {
        SamplerCreateInfo { compare_op: value, ..self }
    }

    /// The bits of the minimum of the computed LOD value.
    pub fn with_min_lod_bits(self, value: u32) -> (r: Self)
        ensures
            r == (SamplerCreateInfo { min_lod_bits: value, ..self }),
    {
        SamplerCreateInfo { min_lod_bits: value, ..self }
    }

    /// The bits of the maximum of the computed LOD value.
    pub fn with_max_lod_bits(self, value: u32) -> (r: Self)
        ensures
            r == (SamplerCreateInfo { max_lod_bits: value, ..self }),
    {
        SamplerCreateInfo { max_lod_bits: value, ..self }
    }

    /// True to enable anisotropic filtering.
    pub fn with_enable_anisotropy(self, enable: bool) -> (r: Self)
        ensures
            r == (SamplerCreateInfo { enable_anisotropy: enable, ..self }),
    {
        SamplerCreateInfo { enable_anisotropy: enable, ..self }
    }

    /// True to enable comparison against a reference value during lookups.
    pub fn with_enable_compare(self, enable: bool) -> (r: Self)
        ensures
            r == (SamplerCreateInfo { enable_compare: enable, ..self }),
    {
        SamplerCreateInfo { enable_compare: enable, ..self }
    }
}

/// The parameters of a texture.
#[derive(Clone, Copy, Debug)]
pub struct TextureCreateInfo {
    pub texture_type: TextureType,
    pub format: TextureFormat,
    pub usage: TextureUsages,
    pub width: u32,
    pub height: u32,
    pub layer_count_or_depth: u32,
    pub num_levels: u32,
    pub sample_count: SampleCount,
}

impl TextureCreateInfo {
    /// Every field at its default.
    pub fn new() -> (r: Self)
        ensures
            r == (TextureCreateInfo { texture_type: TextureType::_2D, format: TextureFormat::Invalid, usage: TextureUsages { bits: 0 }, width: 0, height: 0, layer_count_or_depth: 0, num_levels: 0, sample_count: SampleCount::NoMultiSampling }),
    {
        TextureCreateInfo { texture_type: TextureType::_2D, format: TextureFormat::Invalid, usage: TextureUsages { bits: 0 }, width: 0, height: 0, layer_count_or_depth: 0, num_levels: 0, sample_count: SampleCount::NoMultiSampling }
    }

    /// The base dimensionality of the texture.
    pub fn with_type(self, value: TextureType) -> (r: Self)
        ensures
            r == (TextureCreateInfo { texture_type: value, ..self }),
    {
        TextureCreateInfo { texture_type: value, ..self }
    }

    /// The pixel format of the texture.
    pub fn with_format(self, format: TextureFormat) -> (r: Self)
        ensures
            r == (TextureCreateInfo { format: format, ..self }),
    {
        TextureCreateInfo { format: format, ..self }
    }

    /// How the texture is intended to be used by the client.
    pub fn with_usage(self, value: TextureUsages) -> (r: Self)
        ensures
            r == (TextureCreateInfo { usage: value, ..self }),
    {
        TextureCreateInfo { usage: value, ..self }
    }

    /// The width of the texture.
    pub fn with_width(self, value: u32) -> (r: Self)
        ensures
            r == (TextureCreateInfo { width: value, ..self }),
    {
        TextureCreateInfo { width: value, ..self }
    }

    /// The height of the texture.
    pub fn with_height(self, value: u32) -> (r: Self)
        ensures
            r == (TextureCreateInfo { height: value, ..self }),
    {
        TextureCreateInfo { height: value, ..self }
    }

    /// The layer count of a 2D array texture, or the depth of a 3D texture.
    pub fn with_layer_count_or_depth(self, value: u32) -> (r: Self)
        ensures
            r == (TextureCreateInfo { layer_count_or_depth: value, ..self }),
    {
        TextureCreateInfo { layer_count_or_depth: value, ..self }
    }

    /// The number of mip levels in the texture.
    pub fn with_num_levels(self, value: u32) -> (r: Self)
        ensures
            r == (TextureCreateInfo { num_levels: value, ..self }),
    {
        TextureCreateInfo { num_levels: value, ..self }
    }

    /// The number of samples per texel; only for render targets.
    pub fn with_sample_count(self, value: SampleCount) -> (r: Self)
        ensures
            r == (TextureCreateInfo { sample_count: value, ..self }),
    {
        TextureCreateInfo { sample_count: value, ..self }
    }
}

/// A color target description being configured.
#[derive(Clone, Copy, Debug)]
pub struct ColorTargetDescriptionBuilder {
    pub format: TextureFormat,
}

impl ColorTargetDescriptionBuilder {
    /// Every field at its default.
    pub fn new() -> (r: Self)
        ensures
            r == (ColorTargetDescriptionBuilder { format: TextureFormat::Invalid }),
    {
        ColorTargetDescriptionBuilder { format: TextureFormat::Invalid }
    }

    pub fn with_format(self, value: TextureFormat) -> (r: Self)
        ensures
            r == (ColorTargetDescriptionBuilder { format: value, ..self }),
    {
        ColorTargetDescriptionBuilder { format: value, ..self }
    }
}

/// The format of one color target of a graphics pipeline.
#[derive(Clone, Copy, Debug)]
pub struct ColorTargetDescription {
    pub format: TextureFormat,
}

impl ColorTargetDescriptionBuilder {
    pub fn build(self) -> (r: ColorTargetDescription)
        ensures
            r == (ColorTargetDescription { format: self.format }),
    {
        ColorTargetDescription { format: self.format }
    }
}

/// One attribute of the vertex input layout.
#[derive(Clone, Copy, Debug)]
pub struct VertexAttribute {
    pub location: u32,
    pub buffer_slot: u32,
    pub format: VertexElementFormat,
    pub offset: u32,
}

impl VertexAttribute {
    /// Every field at its default.
    pub fn new() -> (r: Self)
        ensures
            r == (VertexAttribute { location: 0, buffer_slot: 0, format: VertexElementFormat::Invalid, offset: 0 }),
    {
        VertexAttribute { location: 0, buffer_slot: 0, format: VertexElementFormat::Invalid, offset: 0 }
    }

    /// The shader input location index.
    pub fn with_location(self, value: u32) -> (r: Self)
        ensures
            r == (VertexAttribute { location: value, ..self }),
    {
        VertexAttribute { location: value, ..self }
    }

    /// The binding slot of the associated vertex buffer.
    pub fn with_buffer_slot(self, value: u32) -> (r: Self)
        ensures
            r == (VertexAttribute { buffer_slot: value, ..self }),
    {
        VertexAttribute { buffer_slot: value, ..self }
    }

    /// The size and type of the attribute data.
    pub fn with_format(self, value: VertexElementFormat) -> (r: Self)
        ensures
            r == (VertexAttribute { format: value, ..self }),
    {
        VertexAttribute { format: value, ..self }
    }

    /// The byte offset of this attribute relative to the start of the vertex element.
    pub fn with_offset(self, value: u32) -> (r: Self)
        ensures
            r == (VertexAttribute { offset: value, ..self }),
    {
        VertexAttribute { offset: value, ..self }
    }
}

/// One vertex buffer slot of the vertex input layout.
#[derive(Clone, Copy, Debug)]
pub struct VertexBufferDescription {
    pub slot: u32,
    pub pitch: u32,
    pub input_rate: VertexInputRate,
    pub instance_step_rate: u32,
}

impl VertexBufferDescription {
    /// Every field at its default.
    pub fn new() -> (r: Self)
        ensures
            r == (VertexBufferDescription { slot: 0, pitch: 0, input_rate: VertexInputRate::Vertex, instance_step_rate: 0 }),
    {
        VertexBufferDescription { slot: 0, pitch: 0, input_rate: VertexInputRate::Vertex, instance_step_rate: 0 }
    }

    pub fn with_slot(self, value: u32) -> (r: Self)
        ensures
            r == (VertexBufferDescription { slot: value, ..self }),
    {
        VertexBufferDescription { slot: value, ..self }
    }

    pub fn with_pitch(self, value: u32) -> (r: Self)
        ensures
            r == (VertexBufferDescription { pitch: value, ..self }),
    {
        VertexBufferDescription { pitch: value, ..self }
    }

    pub fn with_input_rate(self, value: VertexInputRate) -> (r: Self)
        ensures
            r == (VertexBufferDescription { input_rate: value, ..self }),
    {
        VertexBufferDescription { input_rate: value, ..self }
    }

    pub fn with_instance_step_rate(self, value: u32) -> (r: Self)
        ensures
            r == (VertexBufferDescription { instance_step_rate: value, ..self }),
    {
        VertexBufferDescription { instance_step_rate: value, ..self }
    }
}

/// The rasterizer state of a graphics pipeline. Floating-point parameters are held as their IEEE-754 bits.
#[derive(Clone, Copy, Debug)]
pub struct RasterizerState {
    pub fill_mode: FillMode,
    pub cull_mode: CullMode,
    pub front_face: FrontFace,
    pub depth_bias_constant_factor_bits: u32,
    pub depth_bias_clamp_bits: u32,
    pub depth_bias_slope_factor_bits: u32,
    pub enable_depth_bias: bool,
    pub enable_depth_clip: bool,
}

impl RasterizerState {
    /// Every field at its default.
    pub fn new() -> (r: Self)
        ensures
            r == (RasterizerState { fill_mode: FillMode::Fill, cull_mode: CullMode::NoCulling, front_face: FrontFace::CounterClockwise, depth_bias_constant_factor_bits: 0, depth_bias_clamp_bits: 0, depth_bias_slope_factor_bits: 0, enable_depth_bias: false, enable_depth_clip: false }),
    {
        RasterizerState { fill_mode: FillMode::Fill, cull_mode: CullMode::NoCulling, front_face: FrontFace::CounterClockwise, depth_bias_constant_factor_bits: 0, depth_bias_clamp_bits: 0, depth_bias_slope_factor_bits: 0, enable_depth_bias: false, enable_depth_clip: false }
    }

    /// Whether polygons will be filled in or drawn as lines.
    pub fn with_fill_mode(self, fill_mode: FillMode) -> (r: Self)
        ensures
            r == (RasterizerState { fill_mode: fill_mode, ..self }),
    {
        RasterizerState { fill_mode: fill_mode, ..self }
    }

    /// The facing direction in which triangles will be culled.
    pub fn with_cull_mode(self, cull_mode: CullMode) -> (r: Self)
        ensures
            r == (RasterizerState { cull_mode: cull_mode, ..self }),
    {
        RasterizerState { cull_mode: cull_mode, ..self }
    }

    /// The vertex winding that will cause a triangle to be determined as front-facing.
    pub fn with_front_face(self, front_face: FrontFace) -> (r: Self)
        ensures
            r == (RasterizerState { front_face: front_face, ..self }),
    {
        RasterizerState { front_face: front_face, ..self }
    }

    /// The bits of the scalar factor controlling the depth value added to each fragment.
    pub fn with_depth_bias_constant_factor_bits(self, value: u32) -> (r: Self)
        ensures
            r == (RasterizerState { depth_bias_constant_factor_bits: value, ..self }),
    {
        RasterizerState { depth_bias_constant_factor_bits: value, ..self }
    }

    /// The bits of the maximum depth bias of a fragment.
    pub fn with_depth_bias_clamp_bits(self, value: u32) -> (r: Self)
        ensures
            r == (RasterizerState { depth_bias_clamp_bits: value, ..self }),
    {
        RasterizerState { depth_bias_clamp_bits: value, ..self }
    }

    /// The bits of the scalar factor applied to a fragment's slope in depth calculations.
    pub fn with_depth_slope_factor_bits(self, value: u32) -> (r: Self)
        ensures
            r == (RasterizerState { depth_bias_slope_factor_bits: value, ..self }),
    {
        RasterizerState { depth_bias_slope_factor_bits: value, ..self }
    }

    /// True to bias fragment depth values.
    pub fn with_enable_depth_bias(self, value: bool) -> (r: Self)
        ensures
            r == (RasterizerState { enable_depth_bias: value, ..self }),
    {
        RasterizerState { enable_depth_bias: value, ..self }
    }

    /// True to enable depth clip, false to enable depth clamp.
    pub fn with_enable_depth_clip(self, value: bool) -> (r: Self)
        ensures
            r == (RasterizerState { enable_depth_clip: value, ..self }),
    {
        RasterizerState { enable_depth_clip: value, ..self }
    }
}

/// The stencil operations for one facing of triangles.
#[derive(Clone, Copy, Debug)]
pub struct StencilOpState {
    pub fail_op: StencilOp,
    pub pass_op: StencilOp,
    pub depth_fail_op: StencilOp,
    pub compare_op: CompareOp,
}

impl StencilOpState {
    /// Every field at its default.
    pub fn new() -> (r: Self)
        ensures
            r == (StencilOpState { fail_op: StencilOp::Invalid, pass_op: StencilOp::Invalid, depth_fail_op: StencilOp::Invalid, compare_op: CompareOp::Invalid }),
    {
        StencilOpState { fail_op: StencilOp::Invalid, pass_op: StencilOp::Invalid, depth_fail_op: StencilOp::Invalid, compare_op: CompareOp::Invalid }
    }

    /// The action performed on samples that fail the stencil test.
    pub fn with_fail_op(self, value: StencilOp) -> (r: Self)
        ensures
            r == (StencilOpState { fail_op: value, ..self }),
    {
        StencilOpState { fail_op: value, ..self }
    }

    /// The action performed on samples that pass the depth and stencil tests.
    pub fn with_pass_op(self, value: StencilOp) -> (r: Self)
        ensures
            r == (StencilOpState { pass_op: value, ..self }),
    {
        StencilOpState { pass_op: value, ..self }
    }

    /// The action performed on samples that pass the stencil test and fail the depth test.
    pub fn with_depth_fail_op(self, value: StencilOp) -> (r: Self)
        ensures
            r == (StencilOpState { depth_fail_op: value, ..self }),
    {
        StencilOpState { depth_fail_op: value, ..self }
    }

    /// The comparison operator used in the stencil test.
    pub fn compare_op(self, value: CompareOp) -> (r: Self)
        ensures
            r == (StencilOpState { compare_op: value, ..self }),
    {
        StencilOpState { compare_op: value, ..self }
    }
}

/// The depth and stencil state of a graphics pipeline.
#[derive(Clone, Copy, Debug)]
pub struct DepthStencilState {
    pub compare_op: CompareOp,
    pub back_stencil_state: StencilOpState,
    pub front_stencil_state: StencilOpState,
    pub compare_mask: u8,
    pub write_mask: u8,
    pub enable_depth_test: bool,
    pub enable_depth_write: bool,
    pub enable_stencil_test: bool,
}

impl DepthStencilState {
    /// Every field at its default.
    pub fn new() -> (r: Self)
        ensures
            r == (DepthStencilState { compare_op: CompareOp::Invalid, back_stencil_state: StencilOpState { fail_op: StencilOp::Invalid, pass_op: StencilOp::Invalid, depth_fail_op: StencilOp::Invalid, compare_op: CompareOp::Invalid }, front_stencil_state: StencilOpState { fail_op: StencilOp::Invalid, pass_op: StencilOp::Invalid, depth_fail_op: StencilOp::Invalid, compare_op: CompareOp::Invalid }, compare_mask: 0, write_mask: 0, enable_depth_test: false, enable_depth_write: false, enable_stencil_test: false }),
    {
        DepthStencilState { compare_op: CompareOp::Invalid, back_stencil_state: StencilOpState { fail_op: StencilOp::Invalid, pass_op: StencilOp::Invalid, depth_fail_op: StencilOp::Invalid, compare_op: CompareOp::Invalid }, front_stencil_state: StencilOpState { fail_op: StencilOp::Invalid, pass_op: StencilOp::Invalid, depth_fail_op: StencilOp::Invalid, compare_op: CompareOp::Invalid }, compare_mask: 0, write_mask: 0, enable_depth_test: false, enable_depth_write: false, enable_stencil_test: false }
    }

    /// The comparison operator used for depth testing.
    pub fn with_compare_op(self, value: CompareOp) -> (r: Self)
        ensures
            r == (DepthStencilState { compare_op: value, ..self }),
    {
        DepthStencilState { compare_op: value, ..self }
    }

    /// The stencil op state for back-facing triangles.
    pub fn with_back_stencil_state(self, value: StencilOpState) -> (r: Self)
        ensures
            r == (DepthStencilState { back_stencil_state: value, ..self }),
    {
        DepthStencilState { back_stencil_state: value, ..self }
    }

    /// The stencil op state for front-facing triangles.
    pub fn with_front_stencil_state(self, value: StencilOpState) -> (r: Self)
        ensures
            r == (DepthStencilState { front_stencil_state: value, ..self }),
    {
        DepthStencilState { front_stencil_state: value, ..self }
    }

    /// Selects the bits of the stencil values participating in the stencil test.
    pub fn with_compare_mask(self, value: u8) -> (r: Self)
        ensures
            r == (DepthStencilState { compare_mask: value, ..self }),
    {
        DepthStencilState { compare_mask: value, ..self }
    }

    /// Selects the bits of the stencil values updated by the stencil test.
    pub fn with_write_mask(self, value: u8) -> (r: Self)
        ensures
            r == (DepthStencilState { write_mask: value, ..self }),
    {
        DepthStencilState { write_mask: value, ..self }
    }

    /// True enables the depth test.
    pub fn with_enable_depth_test(self, value: bool) -> (r: Self)
        ensures
            r == (DepthStencilState { enable_depth_test: value, ..self }),
    {
        DepthStencilState { enable_depth_test: value, ..self }
    }

    /// True enables depth writes.
    pub fn with_enable_depth_write(self, value: bool) -> (r: Self)
        ensures
            r == (DepthStencilState { enable_depth_write: value, ..self }),
    {
        DepthStencilState { enable_depth_write: value, ..self }
    }

    /// True enables the stencil test.
    pub fn with_enable_stencil_test(self, value: bool) -> (r: Self)
        ensures
            r == (DepthStencilState { enable_stencil_test: value, ..self }),
    {
        DepthStencilState { enable_stencil_test: value, ..self }
    }
}

/// A copy of the elements of `s`.
fn copy_slice<T: Copy>(s: &[T]) -> (r: Vec<T>)
    ensures
        r@ == s@,
{
    let mut r: Vec<T> = Vec::new();
    let mut i: usize = 0;
    while i < s.len()
        invariant
            i <= s@.len(),
            r@ == s@.subrange(0, i as int),
        decreases s@.len() - i,
    {
        r.push(s[i]);
        i = i + 1;
        assert(r@ =~= s@.subrange(0, i as int));
    }
    assert(r@ =~= s@);
    r
}

/// The vertex input layout of a graphics pipeline.
#[derive(Clone, Debug)]
pub struct VertexInputState {
    pub vertex_buffer_descriptions: Vec<VertexBufferDescription>,
    pub vertex_attributes: Vec<VertexAttribute>,
}

impl VertexInputState {
    /// No vertex buffers and no attributes.
    pub fn new() -> (r: Self)
        ensures
            r.vertex_buffer_descriptions@.len() == 0,
            r.vertex_attributes@.len() == 0,
    {
        VertexInputState { vertex_buffer_descriptions: Vec::new(), vertex_attributes: Vec::new() }
    }

    pub fn with_vertex_buffer_descriptions(self, value: &[VertexBufferDescription]) -> (r: Self)
        ensures
            r.vertex_buffer_descriptions@ == value@,
            r.vertex_attributes@ == self.vertex_attributes@,
    {
        VertexInputState { vertex_buffer_descriptions: copy_slice(value), ..self }
    }

    pub fn with_vertex_attributes(self, value: &[VertexAttribute]) -> (r: Self)
        ensures
            r.vertex_buffer_descriptions@ == self.vertex_buffer_descriptions@,
            r.vertex_attributes@ == value@,
    {
        VertexInputState { vertex_attributes: copy_slice(value), ..self }
    }
}

/// The render targets a graphics pipeline draws into.
#[derive(Clone, Debug)]
pub struct GraphicsPipelineTargetInfo {
    pub color_target_descriptions: Vec<ColorTargetDescription>,
    /// The pixel format of the depth-stencil target; ignored unless there is one.
    pub depth_stencil_format: TextureFormat,
    pub has_depth_stencil_target: bool,
}

impl GraphicsPipelineTargetInfo {
    /// No color targets and no depth-stencil target.
    pub fn new() -> (r: Self)
        ensures
            r.color_target_descriptions@.len() == 0,
            r.depth_stencil_format == TextureFormat::Invalid,
            !r.has_depth_stencil_target,
    {
        GraphicsPipelineTargetInfo {
            color_target_descriptions: Vec::new(),
            depth_stencil_format: TextureFormat::Invalid,
            has_depth_stencil_target: false,
        }
    }

    /// The descriptions of the color targets.
    pub fn with_color_target_descriptions(self, value: &[ColorTargetDescription]) -> (r: Self)
        ensures
            r.color_target_descriptions@ == value@,
            r.depth_stencil_format == self.depth_stencil_format,
            r.has_depth_stencil_target == self.has_depth_stencil_target,
    {
        GraphicsPipelineTargetInfo { color_target_descriptions: copy_slice(value), ..self }
    }

    /// The pixel format of the depth-stencil target.
    pub fn with_depth_stencil_format(self, value: TextureFormat) -> (r: Self)
        ensures
            r.color_target_descriptions@ == self.color_target_descriptions@,
            r.depth_stencil_format == value,
            r.has_depth_stencil_target == self.has_depth_stencil_target,
    {
        GraphicsPipelineTargetInfo { depth_stencil_format: value, ..self }
    }

    /// Whether the pipeline uses a depth-stencil target.
    pub fn with_has_depth_stencil_target(self, value: bool) -> (r: Self)
        ensures
            r.color_target_descriptions@ == self.color_target_descriptions@,
            r.depth_stencil_format == self.depth_stencil_format,
            r.has_depth_stencil_target == value,
    {
        GraphicsPipelineTargetInfo { has_depth_stencil_target: value, ..self }
    }
}

} // verus!
