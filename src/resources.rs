use vstd::prelude::*;

use std::marker::PhantomData;

use crate::error::Error;
use crate::formats::{
    BufferUsages, FillMode, PrimitiveType, ShaderFormat, ShaderFormats, ShaderStage,
    TextureFormat, TransferBufferUsage,
};
use crate::info::{
    DepthStencilState, GraphicsPipelineTargetInfo, RasterizerState, TextureCreateInfo,
    VertexInputState,
};
use crate::registry::{
    register_step, release_step, share_step, Device, Registry, RegistryView, Release,
    ResourceKind, ResourceRef,
};

verus! {

/// A shared handle to a native GPU buffer. Clones made with `share` refer to the same
/// native object, which is released once, when the last of them is dropped.
pub struct Buffer {
    handle: ResourceRef,
    len: u32,
}

impl Buffer {
    pub closed spec fn handle(&self) -> ResourceRef {
        self.handle
    }

    /// The registry handle behind this value.
    pub fn resource(&self) -> (r: &ResourceRef)
        ensures
            *r == self.handle(),
    {
        &self.handle
    }

    pub closed spec fn len_spec(&self) -> u32 {
        self.len
    }

    /// The length of this buffer in bytes.
    pub fn len(&self) -> (r: u32)
        ensures
            r == self.len_spec(),
    {
        self.len
    }

    /// The native handle.
    pub fn raw(&self) -> (r: u64)
        ensures
            r == self.handle().raw_spec(),
    {
        self.handle.raw()
    }

    /// Another handle to the same GPU buffer: one more owner, no native call.
    pub fn share(&self, registry: &mut Registry) -> (r: Buffer)
        requires
            old(registry)@.wf(),
            old(registry)@.holds(self.handle()),
            old(registry)@.resources[self.handle().id()].owners < u64::MAX,
        ensures
            final(registry)@.wf(),
            final(registry)@ == share_step(old(registry)@, self.handle().id()),
            r.handle().id() == self.handle().id(),
            r.handle().raw_spec() == self.handle().raw_spec(),
            r.len_spec() == self.len_spec(),
            final(registry)@.holds(r.handle()),
    {
        Buffer { handle: registry.share(&self.handle), len: self.len }
    }

    /// Drops this handle, returning the native release to make, if any
    /// (see `Registry::release`).
    pub fn release(self, registry: &mut Registry) -> (r: Option<Release>)
        requires
            old(registry)@.wf(),
            old(registry)@.holds(self.handle()),
        ensures
            final(registry)@.wf(),
            (final(registry)@, r) == release_step(old(registry)@, self.handle().id()),
    {
        registry.release(self.handle)
    }
}

/// A shared handle to a native transfer buffer. Clones made with `share` refer to the same
/// native object, which is released once, when the last of them is dropped.
pub struct TransferBuffer {
    handle: ResourceRef,
    len: u32,
}

impl TransferBuffer {
    pub closed spec fn handle(&self) -> ResourceRef {
        self.handle
    }

    /// The registry handle behind this value.
    pub fn resource(&self) -> (r: &ResourceRef)
        ensures
            *r == self.handle(),
    {
        &self.handle
    }

    pub closed spec fn len_spec(&self) -> u32 {
        self.len
    }

    /// The length of this buffer in bytes.
    pub fn len(&self) -> (r: u32)
        ensures
            r == self.len_spec(),
    {
        self.len
    }

    /// The registry slot of this buffer.
    pub fn slot(&self) -> (r: usize)
        ensures
            r == self.handle().id(),
    {
        self.handle.slot()
    }

    /// The native handle.
    pub fn raw(&self) -> (r: u64)
        ensures
            r == self.handle().raw_spec(),
    {
        self.handle.raw()
    }

    /// Another handle to the same transfer buffer: one more owner, no native call.
    pub fn share(&self, registry: &mut Registry) -> (r: TransferBuffer)
        requires
            old(registry)@.wf(),
            old(registry)@.holds(self.handle()),
            old(registry)@.resources[self.handle().id()].owners < u64::MAX,
        ensures
            final(registry)@.wf(),
            final(registry)@ == share_step(old(registry)@, self.handle().id()),
            r.handle().id() == self.handle().id(),
            r.handle().raw_spec() == self.handle().raw_spec(),
            r.len_spec() == self.len_spec(),
            final(registry)@.holds(r.handle()),
    {
        TransferBuffer { handle: registry.share(&self.handle), len: self.len }
    }

    /// Drops this handle, returning the native release to make, if any
    /// (see `Registry::release`).
    pub fn release(self, registry: &mut Registry) -> (r: Option<Release>)
        requires
            old(registry)@.wf(),
            old(registry)@.holds(self.handle()),
        ensures
            final(registry)@.wf(),
            (final(registry)@, r) == release_step(old(registry)@, self.handle().id()),
    {
        registry.release(self.handle)
    }
}

/// A shared handle to a native sampler. Clones made with `share` refer to the same
/// native object, which is released once, when the last of them is dropped.
pub struct Sampler {
    handle: ResourceRef,
}

impl Sampler {
    pub closed spec fn handle(&self) -> ResourceRef {
        self.handle
    }

    /// The registry handle behind this value.
    pub fn resource(&self) -> (r: &ResourceRef)
        ensures
            *r == self.handle(),
    {
        &self.handle
    }

    /// The native handle.
    pub fn raw(&self) -> (r: u64)
        ensures
            r == self.handle().raw_spec(),
    {
        self.handle.raw()
    }

    /// Another handle to the same sampler: one more owner, no native call.
    pub fn share(&self, registry: &mut Registry) -> (r: Sampler)
        requires
            old(registry)@.wf(),
            old(registry)@.holds(self.handle()),
            old(registry)@.resources[self.handle().id()].owners < u64::MAX,
        ensures
            final(registry)@.wf(),
            final(registry)@ == share_step(old(registry)@, self.handle().id()),
            r.handle().id() == self.handle().id(),
            r.handle().raw_spec() == self.handle().raw_spec(),
            final(registry)@.holds(r.handle()),
    {
        Sampler { handle: registry.share(&self.handle) }
    }

    /// Drops this handle, returning the native release to make, if any
    /// (see `Registry::release`).
    pub fn release(self, registry: &mut Registry) -> (r: Option<Release>)
        requires
            old(registry)@.wf(),
            old(registry)@.holds(self.handle()),
        ensures
            final(registry)@.wf(),
            (final(registry)@, r) == release_step(old(registry)@, self.handle().id()),
    {
        registry.release(self.handle)
    }
}

/// A shared handle to a native shader. Clones made with `share` refer to the same
/// native object, which is released once, when the last of them is dropped.
pub struct Shader {
    handle: ResourceRef,
}

impl Shader {
    pub closed spec fn handle(&self) -> ResourceRef {
        self.handle
    }

    /// The registry handle behind this value.
    pub fn resource(&self) -> (r: &ResourceRef)
        ensures
            *r == self.handle(),
    {
        &self.handle
    }

    /// The native handle.
    pub fn raw(&self) -> (r: u64)
        ensures
            r == self.handle().raw_spec(),
    {
        self.handle.raw()
    }

    /// Another handle to the same shader: one more owner, no native call.
    pub fn share(&self, registry: &mut Registry) -> (r: Shader)
        requires
            old(registry)@.wf(),
            old(registry)@.holds(self.handle()),
            old(registry)@.resources[self.handle().id()].owners < u64::MAX,
        ensures
            final(registry)@.wf(),
            final(registry)@ == share_step(old(registry)@, self.handle().id()),
            r.handle().id() == self.handle().id(),
            r.handle().raw_spec() == self.handle().raw_spec(),
            final(registry)@.holds(r.handle()),
    {
        Shader { handle: registry.share(&self.handle) }
    }

    /// Drops this handle, returning the native release to make, if any
    /// (see `Registry::release`).
    pub fn release(self, registry: &mut Registry) -> (r: Option<Release>)
        requires
            old(registry)@.wf(),
            old(registry)@.holds(self.handle()),
        ensures
            final(registry)@.wf(),
            (final(registry)@, r) == release_step(old(registry)@, self.handle().id()),
    {
        registry.release(self.handle)
    }
}

/// A shared handle to a native graphics pipeline. Clones made with `share` refer to the same
/// native object, which is released once, when the last of them is dropped.
pub struct GraphicsPipeline {
    handle: ResourceRef,
}

impl GraphicsPipeline {
    pub closed spec fn handle(&self) -> ResourceRef {
        self.handle
    }

    /// The registry handle behind this value.
    pub fn resource(&self) -> (r: &ResourceRef)
        ensures
            *r == self.handle(),
    {
        &self.handle
    }

    /// The native handle.
    pub fn raw(&self) -> (r: u64)
        ensures
            r == self.handle().raw_spec(),
    {
        self.handle.raw()
    }

    /// Another handle to the same graphics pipeline: one more owner, no native call.
    pub fn share(&self, registry: &mut Registry) -> (r: GraphicsPipeline)
        requires
            old(registry)@.wf(),
            old(registry)@.holds(self.handle()),
            old(registry)@.resources[self.handle().id()].owners < u64::MAX,
        ensures
            final(registry)@.wf(),
            final(registry)@ == share_step(old(registry)@, self.handle().id()),
            r.handle().id() == self.handle().id(),
            r.handle().raw_spec() == self.handle().raw_spec(),
            final(registry)@.holds(r.handle()),
    {
        GraphicsPipeline { handle: registry.share(&self.handle) }
    }

    /// Drops this handle, returning the native release to make, if any
    /// (see `Registry::release`).
    pub fn release(self, registry: &mut Registry) -> (r: Option<Release>)
        requires
            old(registry)@.wf(),
            old(registry)@.holds(self.handle()),
        ensures
            final(registry)@.wf(),
            (final(registry)@, r) == release_step(old(registry)@, self.handle().id()),
    {
        registry.release(self.handle)
    }
}

/// Where the native image of a texture lives and who releases it.
pub enum TextureStorage {
    /// Created by the application; released through the registry like any resource.
    Owned(ResourceRef),
    /// A swapchain image that the device manages itself; never released here.
    Borrowed(u64),
}

/// A texture. Textures that the application creates are `Texture<'static>`; a swapchain
/// texture borrows the command buffer that acquired it, so it cannot outlive that
/// command buffer's submission.
pub struct Texture<'a> {
    storage: TextureStorage,
    width: u32,
    height: u32,
    scope: PhantomData<&'a ()>,
}

impl<'a> Texture<'a> {
    pub closed spec fn storage(&self) -> TextureStorage {
        self.storage
    }

    pub closed spec fn width_spec(&self) -> u32 {
        self.width
    }

    pub closed spec fn height_spec(&self) -> u32 {
        self.height
    }

    /// The native handle of the texture.
    pub open spec fn raw_spec(&self) -> u64 {
        match self.storage() {
            TextureStorage::Owned(h) => h.raw_spec(),
            TextureStorage::Borrowed(raw) => raw,
        }
    }

    /// A texture whose storage the device manages, scoped to a borrow.
    pub(crate) fn borrowed(raw: u64, width: u32, height: u32) -> (r: Texture<'a>)
        ensures
            r.storage() == TextureStorage::Borrowed(raw),
            r.width_spec() == width,
            r.height_spec() == height,
    {
        Texture { storage: TextureStorage::Borrowed(raw), width, height, scope: PhantomData }
    }

    /// The native handle.
    pub fn raw(&self) -> (r: u64)
        ensures
            r == self.raw_spec(),
    {
        match &self.storage {
            TextureStorage::Owned(h) => h.raw(),
            TextureStorage::Borrowed(raw) => *raw,
        }
    }

    /// Whether this is a swapchain texture, which the device manages itself.
    pub fn is_swapchain(&self) -> (r: bool)
        ensures
            r == (self.storage() is Borrowed),
    {
        match &self.storage {
            TextureStorage::Owned(_) => false,
            TextureStorage::Borrowed(_) => true,
        }
    }

    pub fn width(&self) -> (r: u32)
        ensures
            r == self.width_spec(),
    {
        self.width
    }

    pub fn height(&self) -> (r: u32)
        ensures
            r == self.height_spec(),
    {
        self.height
    }

    /// Another handle to the same texture. An owned texture gains one owner; a
    /// swapchain texture is copied with no bookkeeping.
    pub fn share(&self, registry: &mut Registry) -> (r: Texture<'a>)
        requires
            old(registry)@.wf(),
            self.storage() matches TextureStorage::Owned(h) ==> old(registry)@.holds(h)
                && old(registry)@.resources[h.id()].owners < u64::MAX,
        ensures
            final(registry)@.wf(),
            r.width_spec() == self.width_spec(),
            r.height_spec() == self.height_spec(),
            r.raw_spec() == self.raw_spec(),
            self.storage() matches TextureStorage::Owned(h) ==> {
                &&& final(registry)@ == share_step(old(registry)@, h.id())
                &&& r.storage() matches TextureStorage::Owned(h2)
                &&& h2.id() == h.id()
                &&& final(registry)@.holds(h2)
            },
            self.storage() is Borrowed ==> final(registry)@ == old(registry)@ && r.storage()
                == self.storage(),
    {
        let storage = match &self.storage {
            TextureStorage::Owned(h) => TextureStorage::Owned(registry.share(h)),
            TextureStorage::Borrowed(raw) => TextureStorage::Borrowed(*raw),
        };
        Texture { storage, width: self.width, height: self.height, scope: PhantomData }
    }

    /// Drops this handle. An owned texture goes through `Registry::release`; a swapchain
    /// texture is never released here.
    pub fn release(self, registry: &mut Registry) -> (r: Option<Release>)
        requires
            old(registry)@.wf(),
            self.storage() matches TextureStorage::Owned(h) ==> old(registry)@.holds(h),
        ensures
            final(registry)@.wf(),
            self.storage() matches TextureStorage::Owned(h) ==> (final(registry)@, r)
                == release_step(old(registry)@, h.id()),
            self.storage() is Borrowed ==> final(registry)@ == old(registry)@ && r is None,
    {
        match self.storage {
            TextureStorage::Owned(h) => registry.release(h),
            TextureStorage::Borrowed(_) => None,
        }
    }
}

/// A buffer awaiting its native creation call.
pub struct BufferBuilder<'a> {
    device: &'a Device,
    usage: BufferUsages,
    size: u32,
}

impl<'a> BufferBuilder<'a> {
    pub closed spec fn device_spec(&self) -> Device {
        *self.device
    }

    pub closed spec fn usage_spec(&self) -> BufferUsages {
        self.usage
    }

    pub closed spec fn size_spec(&self) -> u32 {
        self.size
    }

    pub fn usage(&self) -> (r: BufferUsages)
        ensures
            r == self.usage_spec(),
    {
        self.usage
    }

    pub fn size(&self) -> (r: u32)
        ensures
            r == self.size_spec(),
    {
        self.size
    }

    pub fn with_usage(self, value: BufferUsages) -> (r: Self)
        ensures
            r.device_spec() == self.device_spec(),
            r.usage_spec() == value,
            r.size_spec() == self.size_spec(),
    {
        BufferBuilder { usage: value, ..self }
    }

    pub fn with_size(self, value: u32) -> (r: Self)
        ensures
            r.device_spec() == self.device_spec(),
            r.usage_spec() == self.usage_spec(),
            r.size_spec() == value,
    {
        BufferBuilder { size: value, ..self }
    }

    /// Records the outcome of the native buffer creation made with this builder's
    /// fields: `native` is the returned handle, zero when it failed. The buffer's
    /// length is the requested size.
    pub fn build(self, registry: &mut Registry, native: u64, message: String) -> (r: Result<Buffer, Error>)
        requires
            old(registry)@.wf(),
            old(registry)@.holds_device(self.device_spec()),
        ensures
            final(registry)@.wf(),
            native == 0 ==> r == Err::<Buffer, Error>(Error::Native(message)) && final(registry)@
                == old(registry)@,
            native != 0 ==> {
                &&& r is Ok
                &&& final(registry)@ == register_step(
                    old(registry)@,
                    self.device_spec().id(),
                    ResourceKind::Buffer,
                    native,
                )
                &&& r->Ok_0.handle().id() == old(registry)@.resources.len()
                &&& r->Ok_0.handle().raw_spec() == native
                &&& r->Ok_0.len_spec() == self.size_spec()
                &&& final(registry)@.holds(r->Ok_0.handle())
            },
    {
        match registry.register(self.device, ResourceKind::Buffer, native, message) {
            Ok(handle) => Ok(Buffer { handle, len: self.size }),
            Err(e) => Err(e),
        }
    }
}

impl Device {
    /// A builder for a buffer of this device: no usage, size zero.
    pub fn create_buffer(&self) -> (r: BufferBuilder)
        ensures
            r.device_spec() == *self,
            r.usage_spec() == (BufferUsages { bits: 0 }),
            r.size_spec() == 0,
    {
        BufferBuilder { device: self, usage: BufferUsages { bits: 0 }, size: 0 }
    }
}

/// How recording the outcome of a native factory call on device `d` changes the
/// registry from `before` to `after`: a zero handle means failure and changes nothing;
/// any other handle is registered in a fresh slot, and `handle` refers to it.
pub open spec fn creation_outcome(
    before: RegistryView,
    after: RegistryView,
    d: int,
    kind: ResourceKind,
    native: u64,
    ok: bool,
    handle: ResourceRef,
) -> bool {
    if native == 0 {
        !ok && after == before
    } else {
        &&& ok
        &&& after == register_step(before, d, kind, native)
        &&& handle.id() == before.resources.len()
        &&& handle.raw_spec() == native
        &&& after.holds(handle)
    }
}

/// A transfer buffer awaiting its native creation call.
pub struct TransferBufferBuilder<'a> {
    pub device: &'a Device,
    pub usage: TransferBufferUsage,
    pub size: u32,
}

impl<'a> TransferBufferBuilder<'a> {
    /// How the buffer will be used.
    pub fn with_usage(self, value: TransferBufferUsage) -> (r: Self)
        ensures
            r == (TransferBufferBuilder { usage: value, ..self }),
    {
        TransferBufferBuilder { usage: value, ..self }
    }

    /// Desired size of the buffer in bytes.
    pub fn with_size(self, value: u32) -> (r: Self)
        ensures
            r == (TransferBufferBuilder { size: value, ..self }),
    {
        TransferBufferBuilder { size: value, ..self }
    }

    /// Records the outcome of the native transfer buffer creation made with this
    /// builder's fields: `native` is the returned handle, zero when it failed. The
    /// buffer's length is the requested size.
    pub fn build(self, registry: &mut Registry, native: u64, message: String) -> (r: Result<TransferBuffer, Error>)
        requires
            old(registry)@.wf(),
            old(registry)@.holds_device(*self.device),
        ensures
            final(registry)@.wf(),
            native == 0 ==> r == Err::<TransferBuffer, Error>(Error::Native(message)),
            creation_outcome(
                old(registry)@,
                final(registry)@,
                self.device.id(),
                ResourceKind::TransferBuffer,
                native,
                r is Ok,
                r->Ok_0.handle(),
            ),
            r is Ok ==> r->Ok_0.len_spec() == self.size,
    {
        match registry.register(self.device, ResourceKind::TransferBuffer, native, message) {
            Ok(handle) => Ok(TransferBuffer { handle, len: self.size }),
            Err(e) => Err(e),
        }
    }
}

/// A shader awaiting its native creation call.
pub struct ShaderBuilder<'a> {
    pub device: &'a Device,
    pub entrypoint: String,
    pub format: ShaderFormat,
    pub code: &'a [u8],
    pub stage: ShaderStage,
    pub num_samplers: u32,
    pub num_storage_buffers: u32,
    pub num_storage_textures: u32,
    pub num_uniform_buffers: u32,
}

impl<'a> ShaderBuilder<'a> {
    pub fn with_samplers(self, value: usize) -> (r: Self)
        ensures
            r == (ShaderBuilder { num_samplers: value as u32, ..self }),
    {
        ShaderBuilder { num_samplers: value as u32, ..self }
    }

    pub fn with_storage_buffers(self, value: usize) -> (r: Self)
        ensures
            r == (ShaderBuilder { num_storage_buffers: value as u32, ..self }),
    {
        ShaderBuilder { num_storage_buffers: value as u32, ..self }
    }

    pub fn with_storage_textures(self, value: usize) -> (r: Self)
        ensures
            r == (ShaderBuilder { num_storage_textures: value as u32, ..self }),
    {
        ShaderBuilder { num_storage_textures: value as u32, ..self }
    }

    pub fn with_uniform_buffers(self, value: usize) -> (r: Self)
        ensures
            r == (ShaderBuilder { num_uniform_buffers: value as u32, ..self }),
    {
        ShaderBuilder { num_uniform_buffers: value as u32, ..self }
    }

    /// The bytecode of the shader, its format and its stage.
    pub fn with_code(self, fmt: ShaderFormat, code: &'a [u8], stage: ShaderStage) -> (r: Self)
        ensures
            r == (ShaderBuilder { format: fmt, code, stage, ..self }),
    {
        ShaderBuilder { format: fmt, code, stage, ..self }
    }

    /// The name of the shader's entry point.
    pub fn with_entrypoint(self, entry_point: &'a str) -> (r: Self)
        ensures
            r.entrypoint@ == entry_point@,
            r == (ShaderBuilder { entrypoint: r.entrypoint, ..self }),
    {
        ShaderBuilder { entrypoint: String::from_str(entry_point), ..self }
    }

    /// Records the outcome of the native shader creation made with this builder's
    /// fields: `native` is the returned handle, zero when it failed.
    pub fn build(self, registry: &mut Registry, native: u64, message: String) -> (r: Result<Shader, Error>)
        requires
            old(registry)@.wf(),
            old(registry)@.holds_device(*self.device),
        ensures
            final(registry)@.wf(),
            native == 0 ==> r == Err::<Shader, Error>(Error::Native(message)),
            creation_outcome(
                old(registry)@,
                final(registry)@,
                self.device.id(),
                ResourceKind::Shader,
                native,
                r is Ok,
                r->Ok_0.handle(),
            ),
    {
        match registry.register(self.device, ResourceKind::Shader, native, message) {
            Ok(handle) => Ok(Shader { handle }),
            Err(e) => Err(e),
        }
    }
}

/// A graphics pipeline awaiting its native creation call.
pub struct GraphicsPipelineBuilder<'a> {
    pub device: &'a Device,
    pub fragment_shader: u64,
    pub vertex_shader: u64,
    pub primitive_type: PrimitiveType,
    pub rasterizer_state: RasterizerState,
    pub depth_stencil_state: DepthStencilState,
    pub vertex_input_state: VertexInputState,
    pub target_info: GraphicsPipelineTargetInfo,
}

impl<'a> GraphicsPipelineBuilder<'a> {
    pub fn with_fragment_shader(self, value: &'a Shader) -> (r: Self)
        ensures
            r == (GraphicsPipelineBuilder { fragment_shader: value.handle().raw_spec(), ..self }),
    {
        GraphicsPipelineBuilder { fragment_shader: value.raw(), ..self }
    }

    pub fn with_vertex_shader(self, value: &'a Shader) -> (r: Self)
        ensures
            r == (GraphicsPipelineBuilder { vertex_shader: value.handle().raw_spec(), ..self }),
    {
        GraphicsPipelineBuilder { vertex_shader: value.raw(), ..self }
    }

    pub fn with_primitive_type(self, value: PrimitiveType) -> (r: Self)
        ensures
            r == (GraphicsPipelineBuilder { primitive_type: value, ..self }),
    {
        GraphicsPipelineBuilder { primitive_type: value, ..self }
    }

    /// Whether polygons will be filled in or drawn as lines; overrides the fill mode of
    /// an earlier `with_rasterizer_state`.
    pub fn with_fill_mode(self, value: FillMode) -> (r: Self)
        ensures
            r == (GraphicsPipelineBuilder {
                rasterizer_state: RasterizerState { fill_mode: value, ..self.rasterizer_state },
                ..self
            }),
    {
        let rasterizer_state = RasterizerState { fill_mode: value, ..self.rasterizer_state };
        GraphicsPipelineBuilder { rasterizer_state, ..self }
    }

    /// The rasterizer state; overrides an earlier `with_fill_mode`.
    pub fn with_rasterizer_state(self, value: RasterizerState) -> (r: Self)
        ensures
            r == (GraphicsPipelineBuilder { rasterizer_state: value, ..self }),
    {
        GraphicsPipelineBuilder { rasterizer_state: value, ..self }
    }

    pub fn with_depth_stencil_state(self, value: DepthStencilState) -> (r: Self)
        ensures
            r == (GraphicsPipelineBuilder { depth_stencil_state: value, ..self }),
    {
        GraphicsPipelineBuilder { depth_stencil_state: value, ..self }
    }

    pub fn with_vertex_input_state(self, value: VertexInputState) -> (r: Self)
        ensures
            r == (GraphicsPipelineBuilder { vertex_input_state: value, ..self }),
    {
        GraphicsPipelineBuilder { vertex_input_state: value, ..self }
    }

    pub fn with_target_info(self, value: GraphicsPipelineTargetInfo) -> (r: Self)
        ensures
            r == (GraphicsPipelineBuilder { target_info: value, ..self }),
    {
        GraphicsPipelineBuilder { target_info: value, ..self }
    }

    /// Records the outcome of the native pipeline creation made with this builder's
    /// fields: `native` is the returned handle, zero when it failed.
    pub fn build(self, registry: &mut Registry, native: u64, message: String) -> (r: Result<GraphicsPipeline, Error>)
        requires
            old(registry)@.wf(),
            old(registry)@.holds_device(*self.device),
        ensures
            final(registry)@.wf(),
            native == 0 ==> r == Err::<GraphicsPipeline, Error>(Error::Native(message)),
            creation_outcome(
                old(registry)@,
                final(registry)@,
                self.device.id(),
                ResourceKind::GraphicsPipeline,
                native,
                r is Ok,
                r->Ok_0.handle(),
            ),
    {
        match registry.register(self.device, ResourceKind::GraphicsPipeline, native, message) {
            Ok(handle) => Ok(GraphicsPipeline { handle }),
            Err(e) => Err(e),
        }
    }
}

impl Device {
    /// A builder for a transfer buffer of this device: upload usage, size zero.
    pub fn create_transfer_buffer(&self) -> (r: TransferBufferBuilder)
        ensures
            r == (TransferBufferBuilder { device: self, usage: TransferBufferUsage::Upload, size: 0 }),
    {
        TransferBufferBuilder { device: self, usage: TransferBufferUsage::Upload, size: 0 }
    }

    /// A builder for a shader of this device: entry point `main`, no code yet.
    pub fn create_shader(&self) -> (r: ShaderBuilder)
        ensures
            r.device == self,
            r.entrypoint@ == seq!['m', 'a', 'i', 'n'],
            r.code@.len() == 0,
    {
        let code: &[u8] = &[];
        let entrypoint = String::from_str("main");
        proof {
            reveal_strlit("main");
        }
        ShaderBuilder {
            device: self,
            entrypoint,
            format: ShaderFormat::Invalid,
            code,
            stage: ShaderStage::Vertex,
            num_samplers: 0,
            num_storage_buffers: 0,
            num_storage_textures: 0,
            num_uniform_buffers: 0,
        }
    }

    /// A builder for a graphics pipeline of this device, with no shaders set.
    pub fn create_graphics_pipeline<'a>(&'a self) -> (r: GraphicsPipelineBuilder<'a>)
        ensures
            r.device == self,
            r.fragment_shader == 0,
            r.vertex_shader == 0,
            r.primitive_type == PrimitiveType::TriangleList,
    {
        GraphicsPipelineBuilder {
            device: self,
            fragment_shader: 0,
            vertex_shader: 0,
            primitive_type: PrimitiveType::TriangleList,
            rasterizer_state: RasterizerState::new(),
            depth_stencil_state: crate::info::DepthStencilState::new(),
            vertex_input_state: VertexInputState::new(),
            target_info: GraphicsPipelineTargetInfo::new(),
        }
    }

    /// Records the outcome of the native sampler creation: `native` is the returned
    /// handle, zero when it failed.
    pub fn create_sampler(&self, registry: &mut Registry, native: u64, message: String) -> (r: Result<Sampler, Error>)
        requires
            old(registry)@.wf(),
            old(registry)@.holds_device(*self),
        ensures
            final(registry)@.wf(),
            native == 0 ==> r == Err::<Sampler, Error>(Error::Native(message)),
            creation_outcome(
                old(registry)@,
                final(registry)@,
                self.id(),
                ResourceKind::Sampler,
                native,
                r is Ok,
                r->Ok_0.handle(),
            ),
    {
        match registry.register(self, ResourceKind::Sampler, native, message) {
            Ok(handle) => Ok(Sampler { handle }),
            Err(e) => Err(e),
        }
    }

    /// Records the outcome of the native texture creation made with `create_info`:
    /// `native` is the returned handle, zero when it failed. The texture has the
    /// requested width and height.
    pub fn create_texture(
        &self,
        registry: &mut Registry,
        create_info: &TextureCreateInfo,
        native: u64,
        message: String,
    ) -> (r: Result<Texture<'static>, Error>)
        requires
            old(registry)@.wf(),
            old(registry)@.holds_device(*self),
        ensures
            final(registry)@.wf(),
            native == 0 ==> r == Err::<Texture<'static>, Error>(Error::Native(message)),
            native != 0 ==> r is Ok && r->Ok_0.storage() is Owned && creation_outcome(
                old(registry)@,
                final(registry)@,
                self.id(),
                ResourceKind::Texture,
                native,
                true,
                r->Ok_0.storage()->Owned_0,
            ) && r->Ok_0.width_spec() == create_info.width && r->Ok_0.height_spec()
                == create_info.height,
            native == 0 ==> final(registry)@ == old(registry)@,
    {
        match registry.register(self, ResourceKind::Texture, native, message) {
            Ok(handle) => Ok(
                Texture {
                    storage: TextureStorage::Owned(handle),
                    width: create_info.width,
                    height: create_info.height,
                    scope: PhantomData,
                },
            ),
            Err(e) => Err(e),
        }
    }
}

impl Device {
    /// The pixel format of a window's swapchain textures, from the native query's
    /// result `native`; an encoding that names no known format reads as `Invalid`.
    pub fn get_swapchain_texture_format(&self, native: u32) -> (r: TextureFormat)
        ensures
            TextureFormat::from_raw_spec(native) matches Some(f) ==> r == f,
            TextureFormat::from_raw_spec(native) is None ==> r == TextureFormat::Invalid,
    {
        match TextureFormat::from_raw(native) {
            Some(f) => f,
            None => TextureFormat::Invalid,
        }
    }

    /// The shader formats the device accepts, from the native query's bit mask.
    pub fn get_shader_formats(&self, native: u32) -> (r: ShaderFormats)
        ensures
            r.bits == native,
    {
        ShaderFormats { bits: native }
    }
}

} // verus!
