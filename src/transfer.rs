use vstd::prelude::*;

use crate::commands::CopyPass;
use crate::error::Error;
use crate::registry::{set_mapped_step, Registry, RegistryView, ResourceKind};
use crate::info::{BufferRegion, TextureRegion, TextureTransferInfo, TransferBufferLocation};
use crate::resources::TransferBuffer;

verus! {

/// Whether the transfer buffer in slot `slot`, if any, is mapped in `m`.
pub open spec fn slot_is_mapped(m: RegistryView, slot: Option<usize>) -> bool {
    slot matches Some(s) && s < m.resources.len() && m.resources[s as int].mapped
}

/// Whether `slot` and `raw` name a live transfer buffer of `m`.
pub open spec fn names_transfer_buffer(m: RegistryView, slot: Option<usize>, raw: u64) -> bool {
    slot matches Some(s) && m.names(s, ResourceKind::TransferBuffer, raw)
}

/// The check before a copy out of the transfer buffer named by `slot` and `raw`: it must
/// be a live transfer buffer of the registry, and not mapped.
fn check_source(registry: &Registry, slot: Option<usize>, raw: u64) -> (r: Result<(), Error>)
    ensures
        !names_transfer_buffer(registry@, slot, raw) ==> r == Err::<(), Error>(
            Error::UnknownTransferBuffer,
        ),
        names_transfer_buffer(registry@, slot, raw) && slot_is_mapped(registry@, slot) ==> r
            == Err::<(), Error>(Error::StillMapped),
        names_transfer_buffer(registry@, slot, raw) && !slot_is_mapped(registry@, slot) ==> r is Ok,
{
    match slot {
        Some(s) => {
            if !registry.slot_names(s, ResourceKind::TransferBuffer, raw) {
                Err(Error::UnknownTransferBuffer)
            } else if registry.slot_mapped(s) {
                Err(Error::StillMapped)
            } else {
                Ok(())
            }
        },
        None => Err(Error::UnknownTransferBuffer),
    }
}

/// A live host mapping of a transfer buffer's memory, viewed as `count` elements.
/// It is consumed by `unmap`, which must happen before the buffer takes part in a copy.
pub struct BufferMemMap {
    transfer_buffer: u64,
    slot: usize,
    mem: u64,
    count: usize,
}

impl BufferMemMap {
    pub closed spec fn transfer_buffer_spec(&self) -> u64 {
        self.transfer_buffer
    }

    pub closed spec fn slot_spec(&self) -> usize {
        self.slot
    }

    pub closed spec fn mem_spec(&self) -> u64 {
        self.mem
    }

    pub closed spec fn count_spec(&self) -> usize {
        self.count
    }

    /// The native handle of the mapped transfer buffer.
    pub fn transfer_buffer(&self) -> (r: u64)
        ensures
            r == self.transfer_buffer_spec(),
    {
        self.transfer_buffer
    }

    /// The host address of the mapped memory.
    pub fn mem(&self) -> (r: u64)
        ensures
            r == self.mem_spec(),
    {
        self.mem
    }

    /// How many whole elements the mapped memory holds.
    pub fn count(&self) -> (r: usize)
        ensures
            r == self.count_spec(),
    {
        self.count
    }

    /// Ends the mapping; returns the native handle of the transfer buffer, which the
    /// caller must now unmap natively. The buffer may then be mapped or copied again.
    pub fn unmap(self, registry: &mut Registry) -> (r: u64)
        requires
            old(registry)@.wf(),
            self.slot_spec() < old(registry)@.resources.len(),
        ensures
            final(registry)@.wf(),
            final(registry)@ == set_mapped_step(old(registry)@, self.slot_spec() as int, false),
            r == self.transfer_buffer_spec(),
    {
        registry.set_mapped(self.slot, false);
        self.transfer_buffer
    }
}

impl TransferBuffer {
    /// Whether a mapping of this buffer is live.
    pub fn is_mapped(&self, registry: &Registry) -> (r: bool)
        ensures
            r == slot_is_mapped(registry@, Some(self.handle().id() as usize)),
    {
        registry.slot_mapped(self.slot())
    }

    /// Maps the buffer's memory as elements of `element_size` bytes. Refused with
    /// `AlreadyMapped` while a mapping of it is live (the native call must then not be
    /// made, and `mem` is ignored); otherwise `mem` is the address that the native map
    /// call returned, and zero means it failed. The mapping covers
    /// `len / element_size` elements.
    pub fn map(&self, registry: &mut Registry, element_size: usize, mem: u64, message: String) -> (r: Result<BufferMemMap, Error>)
        requires
            old(registry)@.wf(),
            old(registry)@.holds(self.handle()),
            element_size > 0,
        ensures
            final(registry)@.wf(),
            old(registry)@.resources[self.handle().id()].mapped ==> r == Err::<BufferMemMap, Error>(
                Error::AlreadyMapped,
            ) && final(registry)@ == old(registry)@,
            !old(registry)@.resources[self.handle().id()].mapped && mem == 0 ==> r == Err::<
                BufferMemMap,
                Error,
            >(Error::MapFailed(message)) && final(registry)@ == old(registry)@,
            !old(registry)@.resources[self.handle().id()].mapped && mem != 0 ==> {
                &&& r is Ok
                &&& final(registry)@ == set_mapped_step(old(registry)@, self.handle().id(), true)
                &&& r->Ok_0.mem_spec() == mem
                &&& r->Ok_0.count_spec() == self.len_spec() as usize / element_size
                &&& r->Ok_0.transfer_buffer_spec() == self.handle().raw_spec()
                &&& r->Ok_0.slot_spec() == self.handle().id()
            },
    {
        let slot = self.slot();
        if registry.slot_mapped(slot) {
            return Err(Error::AlreadyMapped);
        }
        if mem == 0 {
            return Err(Error::MapFailed(message));
        }
        registry.set_mapped(slot, true);
        Ok(BufferMemMap { transfer_buffer: self.raw(), slot, mem, count: self.len() as usize / element_size })
    }
}

impl CopyPass {
    /// Checks an upload from a transfer buffer into a buffer. Refused with
    /// `UnknownTransferBuffer` unless the location names a live transfer buffer of
    /// `registry`, and with `StillMapped` while that buffer is mapped; on success the
    /// caller makes the native upload call (`cycle` asks the device to cycle the
    /// destination's storage rather than wait on its use, and is no error condition).
    pub fn upload_to_gpu_buffer(
        &self,
        registry: &Registry,
        transfer_buf_location: &TransferBufferLocation,
        buffer_region: &BufferRegion,
        cycle: bool,
    ) -> (r: Result<(), Error>)
        ensures
            !names_transfer_buffer(
                registry@,
                transfer_buf_location.slot,
                transfer_buf_location.transfer_buffer,
            ) ==> r == Err::<(), Error>(Error::UnknownTransferBuffer),
            names_transfer_buffer(
                registry@,
                transfer_buf_location.slot,
                transfer_buf_location.transfer_buffer,
            ) && slot_is_mapped(registry@, transfer_buf_location.slot) ==> r == Err::<(), Error>(
                Error::StillMapped,
            ),
            r is Ok <==> names_transfer_buffer(
                registry@,
                transfer_buf_location.slot,
                transfer_buf_location.transfer_buffer,
            ) && !slot_is_mapped(registry@, transfer_buf_location.slot),
    {
        check_source(registry, transfer_buf_location.slot, transfer_buf_location.transfer_buffer)
    }

    /// Checks an upload from a transfer buffer into a texture; the same rules as
    /// `upload_to_gpu_buffer`.
    pub fn upload_to_gpu_texture(
        &self,
        registry: &Registry,
        source: &TextureTransferInfo,
        destination: &TextureRegion,
        cycle: bool,
    ) -> (r: Result<(), Error>)
        ensures
            !names_transfer_buffer(registry@, source.slot, source.transfer_buffer) ==> r == Err::<
                (),
                Error,
            >(Error::UnknownTransferBuffer),
            names_transfer_buffer(registry@, source.slot, source.transfer_buffer) && slot_is_mapped(
                registry@,
                source.slot,
            ) ==> r == Err::<(), Error>(Error::StillMapped),
            r is Ok <==> names_transfer_buffer(registry@, source.slot, source.transfer_buffer)
                && !slot_is_mapped(registry@, source.slot),
    {
        check_source(registry, source.slot, source.transfer_buffer)
    }
}

/// Mapping a transfer buffer and then unmapping it leaves the registry exactly as it
/// was: the buffer is again free to be mapped or used as the source of a copy.
pub proof fn lemma_map_unmap_restores(m: RegistryView, r: usize)
    requires
        m.wf(),
        r < m.resources.len(),
        !m.resources[r as int].mapped,
    ensures
        set_mapped_step(set_mapped_step(m, r as int, true), r as int, false) == m,
        !slot_is_mapped(set_mapped_step(set_mapped_step(m, r as int, true), r as int, false), Some(r)),
{
    let m2 = set_mapped_step(set_mapped_step(m, r as int, true), r as int, false);
    assert(m2.resources =~= m.resources);
}

} // verus!
