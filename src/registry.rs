use vstd::prelude::*;

use crate::error::Error;

verus! {

/// The kinds of device-created objects that carry a native release obligation.
#[derive(Clone, Copy, Debug, PartialEq, Eq, Structural)]
pub enum ResourceKind {
    Buffer,
    Texture,
    Sampler,
    Shader,
    GraphicsPipeline,
    TransferBuffer,
}

/// Bookkeeping for one native device: its handle and how many strong references exist.
/// A device whose count has reached zero has been destroyed.
#[derive(Clone, Copy, Debug)]
pub struct DeviceSlot {
    pub raw: u64,
    pub owners: u64,
}

/// Bookkeeping for one native resource: its kind, handle, owning device slot and
/// how many shared handles to it exist, and whether its memory is mapped for the host.
#[derive(Clone, Copy, Debug)]
pub struct ResourceSlot {
    pub kind: ResourceKind,
    pub raw: u64,
    pub device: usize,
    pub owners: u64,
    pub mapped: bool,
}

/// A native release call that the caller must now make: release `raw` of `kind` on `device`.
#[derive(Clone, Copy, Debug, PartialEq, Eq, Structural)]
pub struct Release {
    pub device: u64,
    pub kind: ResourceKind,
    pub raw: u64,
}

/// The mathematical state of a registry: every device slot and every resource slot
/// ever created, indexed by the order of creation. Slots are never reused, so a slot
/// index together with the registry acts as a generation-checked weak reference.
pub struct RegistryView {
    pub devices: Seq<DeviceSlot>,
    pub resources: Seq<ResourceSlot>,
}

impl RegistryView {
    /// Every resource points at a device slot that exists.
    pub open spec fn wf(self) -> bool {
        forall|i: int|
            0 <= i < self.resources.len() ==> (#[trigger] self.resources[i]).device
                < self.devices.len()
    }

    /// The device in slot `d` has not been destroyed.
    pub open spec fn device_live(self, d: int) -> bool {
        0 <= d < self.devices.len() && self.devices[d].owners > 0
    }

    /// The resource in slot `r` still has at least one shared handle.
    pub open spec fn resource_held(self, r: int) -> bool {
        0 <= r < self.resources.len() && self.resources[r].owners > 0
    }

    /// Whether slot `slot` holds a live resource of `kind` whose native handle is `raw`.
    pub open spec fn names(self, slot: usize, kind: ResourceKind, raw: u64) -> bool {
        &&& self.resource_held(slot as int)
        &&& self.resources[slot as int].kind == kind
        &&& self.resources[slot as int].raw == raw
    }

    /// Whether the device owning resource `r` is still alive.
    pub open spec fn owner_live(self, r: int) -> bool {
        self.device_live(self.resources[r].device as int)
    }
}

/// The effect of creating one more strong reference to device `d`.
pub open spec fn share_device_step(m: RegistryView, d: int) -> RegistryView {
    let s = m.devices[d];
    RegistryView {
        devices: m.devices.update(d, DeviceSlot { raw: s.raw, owners: (s.owners + 1) as u64 }),
        resources: m.resources,
    }
}

/// The effect of dropping one strong reference to device `d`, and the native handle to
/// destroy when it was the last one.
pub open spec fn drop_device_step(m: RegistryView, d: int) -> (RegistryView, Option<u64>) {
    if m.device_live(d) {
        let s = m.devices[d];
        let m2 = RegistryView {
            devices: m.devices.update(d, DeviceSlot { raw: s.raw, owners: (s.owners - 1) as u64 }),
            resources: m.resources,
        };
        if s.owners == 1 {
            (m2, Some(s.raw))
        } else {
            (m2, None)
        }
    } else {
        (m, None)
    }
}

/// The effect of cloning a handle to resource `r`: one more owner, no native call.
pub open spec fn share_step(m: RegistryView, r: int) -> RegistryView {
    let s = m.resources[r];
    RegistryView {
        devices: m.devices,
        resources: m.resources.update(
            r,
            ResourceSlot { kind: s.kind, raw: s.raw, device: s.device, owners: (s.owners + 1) as u64, mapped: s.mapped },
        ),
    }
}

/// The effect of dropping a handle to resource `r`, and the native release it calls for:
/// one exactly when the last handle goes while the owning device is still alive.
pub open spec fn release_step(m: RegistryView, r: int) -> (RegistryView, Option<Release>) {
    if m.resource_held(r) {
        let s = m.resources[r];
        let m2 = RegistryView {
            devices: m.devices,
            resources: m.resources.update(
                r,
                ResourceSlot { kind: s.kind, raw: s.raw, device: s.device, owners: (s.owners - 1) as u64, mapped: s.mapped },
            ),
        };
        if s.owners == 1 && m.device_live(s.device as int) {
            (m2, Some(Release { device: m.devices[s.device as int].raw, kind: s.kind, raw: s.raw }))
        } else {
            (m2, None)
        }
    } else {
        (m, None)
    }
}

/// The registry after a native factory call on device `d` returned `native` for a new
/// resource of `kind`: a fresh slot with one owner, not mapped.
pub open spec fn register_step(m: RegistryView, d: int, kind: ResourceKind, native: u64) -> RegistryView {
    RegistryView {
        devices: m.devices,
        resources: m.resources.push(
            ResourceSlot { kind, raw: native, device: d as usize, owners: 1, mapped: false },
        ),
    }
}

/// The registry with the host mapping of resource `r` switched on or off.
pub open spec fn set_mapped_step(m: RegistryView, r: int, mapped: bool) -> RegistryView {
    let s = m.resources[r];
    RegistryView {
        devices: m.devices,
        resources: m.resources.update(
            r,
            ResourceSlot { kind: s.kind, raw: s.raw, device: s.device, owners: s.owners, mapped },
        ),
    }
}

/// A strong reference to a device slot of a registry.
pub struct Device {
    slot: usize,
    raw: u64,
}

impl Device {
    pub closed spec fn id(&self) -> int {
        self.slot as int
    }

    pub closed spec fn raw_spec(&self) -> u64 {
        self.raw
    }

    /// The native device handle.
    pub fn raw(&self) -> (r: u64)
        ensures
            r == self.raw_spec(),
    {
        self.raw
    }

    /// Records the outcome of native device creation: `native` is the handle that the
    /// native factory returned (zero when it failed) and `message` the platform's
    /// last-error text. Succeeds exactly when the handle is non-zero.
    pub fn new(registry: &mut Registry, native: u64, message: String) -> (r: Result<Device, Error>)
        requires
            old(registry)@.wf(),
        ensures
            final(registry)@.wf(),
            native == 0 ==> r == Err::<Device, Error>(Error::Native(message)) && final(registry)@
                == old(registry)@,
            native != 0 ==> r is Ok && final(registry)@ == (RegistryView {
                devices: old(registry)@.devices.push(DeviceSlot { raw: native, owners: 1 }),
                resources: old(registry)@.resources,
            }) && r->Ok_0.id() == old(registry)@.devices.len() && r->Ok_0.raw_spec() == native
                && final(registry)@.holds_device(r->Ok_0),
    {
        if native == 0 {
            return Err(Error::Native(message));
        }
        let slot = registry.devices.len();
        registry.devices.push(DeviceSlot { raw: native, owners: 1 });
        let ghost m = registry@;
        assert(m.devices =~= old(registry)@.devices.push(DeviceSlot { raw: native, owners: 1 }));
        Ok(Device { slot, raw: native })
    }

    /// Another strong reference to the same device (no native call).
    pub fn share(&self, registry: &mut Registry) -> (r: Device)
        requires
            old(registry)@.wf(),
            old(registry)@.holds_device(*self),
            old(registry)@.devices[self.id()].owners < u64::MAX,
        ensures
            final(registry)@.wf(),
            final(registry)@ == share_device_step(old(registry)@, self.id()),
            r.id() == self.id(),
            r.raw_spec() == self.raw_spec(),
            final(registry)@.holds_device(r),
    {
        let s = registry.devices[self.slot];
        registry.devices.set(self.slot, DeviceSlot { raw: s.raw, owners: s.owners + 1 });
        assert(registry@.devices =~= share_device_step(old(registry)@, self.id()).devices);
        Device { slot: self.slot, raw: self.raw }
    }

    /// Drops one strong reference to a device. When it was the last one, returns the
    /// native device handle, which the caller must now destroy; the device's resources
    /// then see it as gone.
    pub fn release(self, registry: &mut Registry) -> (r: Option<u64>)
        requires
            old(registry)@.wf(),
            old(registry)@.holds_device(self),
        ensures
            final(registry)@.wf(),
            (final(registry)@, r) == drop_device_step(old(registry)@, self.id()),
    {
        let s = registry.devices[self.slot];
        registry.devices.set(self.slot, DeviceSlot { raw: s.raw, owners: s.owners - 1 });
        assert(registry@.devices =~= drop_device_step(old(registry)@, self.id()).0.devices);
        if s.owners == 1 {
            Some(s.raw)
        } else {
            None
        }
    }
}

/// A shared handle to a resource slot of a registry.
pub struct ResourceRef {
    slot: usize,
    raw: u64,
}

impl ResourceRef {
    pub closed spec fn id(&self) -> int {
        self.slot as int
    }

    pub closed spec fn raw_spec(&self) -> u64 {
        self.raw
    }

    /// The native resource handle.
    pub fn raw(&self) -> (r: u64)
        ensures
            r == self.raw_spec(),
    {
        self.raw
    }

    /// The registry slot this handle refers to.
    pub fn slot(&self) -> (r: usize)
        ensures
            r == self.id(),
    {
        self.slot
    }
}

impl RegistryView {
    /// `d` is a live strong reference of this registry.
    pub open spec fn holds_device(self, d: Device) -> bool {
        &&& self.device_live(d.id())
        &&& self.devices[d.id()].raw == d.raw_spec()
    }

    /// `h` is a live shared handle of this registry.
    pub open spec fn holds(self, h: ResourceRef) -> bool {
        &&& self.resource_held(h.id())
        &&& self.resources[h.id()].raw == h.raw_spec()
    }
}

/// The table of devices and resources behind every handle of this library.
pub struct Registry {
    devices: Vec<DeviceSlot>,
    resources: Vec<ResourceSlot>,
}

impl View for Registry {
    type V = RegistryView;

    closed spec fn view(&self) -> RegistryView {
        RegistryView { devices: self.devices@, resources: self.resources@ }
    }
}

impl Registry {
    /// An empty registry.
    pub fn new() -> (r: Registry)
        ensures
            r@.devices.len() == 0,
            r@.resources.len() == 0,
            r@.wf(),
    {
        Registry { devices: Vec::new(), resources: Vec::new() }
    }

    /// Whether the device that owns `handle` is still alive: the weak back-reference
    /// of a resource resolves.
    pub fn owner_alive(&self, handle: &ResourceRef) -> (r: bool)
        requires
            self@.wf(),
            self@.holds(*handle),
        ensures
            r == self@.owner_live(handle.id()),
    {
        let d = self.resources[handle.slot].device;
        self.devices[d].owners > 0
    }

    /// Records the outcome of a native factory call made on `device`: `native` is the
    /// returned handle (zero on failure) and `message` the platform's last-error text.
    /// Succeeds exactly when the handle is non-zero, with a fresh slot owned once.
    pub fn register(&mut self, device: &Device, kind: ResourceKind, native: u64, message: String) -> (r: Result<ResourceRef, Error>)
        requires
            old(self)@.wf(),
            old(self)@.holds_device(*device),
        ensures
            final(self)@.wf(),
            native == 0 ==> r == Err::<ResourceRef, Error>(Error::Native(message)) && final(self)@
                == old(self)@,
            native != 0 ==> r is Ok && final(self)@ == register_step(old(self)@, device.id(), kind, native)
                && r->Ok_0.id() == old(self)@.resources.len() && r->Ok_0.raw_spec() == native
                && final(self)@.holds(r->Ok_0),
    {
        if native == 0 {
            return Err(Error::Native(message));
        }
        let slot = self.resources.len();
        self.resources.push(ResourceSlot { kind, raw: native, device: device.slot, owners: 1, mapped: false });
        assert(self@.resources =~= old(self)@.resources.push(
            ResourceSlot { kind, raw: native, device: device.id() as usize, owners: 1, mapped: false },
        ));
        Ok(ResourceRef { slot, raw: native })
    }

    /// Another shared handle to the same resource: one more owner, no native call.
    pub fn share(&mut self, handle: &ResourceRef) -> (r: ResourceRef)
        requires
            old(self)@.wf(),
            old(self)@.holds(*handle),
            old(self)@.resources[handle.id()].owners < u64::MAX,
        ensures
            final(self)@.wf(),
            final(self)@ == share_step(old(self)@, handle.id()),
            r.id() == handle.id(),
            r.raw_spec() == handle.raw_spec(),
            final(self)@.holds(r),
    {
        let s = self.resources[handle.slot];
        self.resources.set(
            handle.slot,
            ResourceSlot { kind: s.kind, raw: s.raw, device: s.device, owners: s.owners + 1, mapped: s.mapped },
        );
        assert(self@.resources =~= share_step(old(self)@, handle.id()).resources);
        ResourceRef { slot: handle.slot, raw: handle.raw }
    }

    /// Drops a shared handle. Returns the native release to make exactly when this was
    /// the last handle and the owning device is still alive; otherwise nothing is to be
    /// released (other handles remain, or the device already tore everything down).
    pub fn release(&mut self, handle: ResourceRef) -> (r: Option<Release>)
        requires
            old(self)@.wf(),
            old(self)@.holds(handle),
        ensures
            final(self)@.wf(),
            (final(self)@, r) == release_step(old(self)@, handle.id()),
    {
        let s = self.resources[handle.slot];
        self.resources.set(
            handle.slot,
            ResourceSlot { kind: s.kind, raw: s.raw, device: s.device, owners: s.owners - 1, mapped: s.mapped },
        );
        assert(self@.resources =~= release_step(old(self)@, handle.id()).0.resources);
        let d = self.devices[s.device];
        if s.owners == 1 && d.owners > 0 {
            Some(Release { device: d.raw, kind: s.kind, raw: s.raw })
        } else {
            None
        }
    }

    /// Whether slot `slot` holds a live resource of `kind` whose native handle is `raw`.
    pub fn slot_names(&self, slot: usize, kind: ResourceKind, raw: u64) -> (r: bool)
        ensures
            r == self@.names(slot, kind, raw),
    {
        slot < self.resources.len() && self.resources[slot].owners > 0 && self.resources[slot].kind
            == kind && self.resources[slot].raw == raw
    }

    /// Whether slot `slot` holds a resource whose memory is mapped for the host.
    pub fn slot_mapped(&self, slot: usize) -> (r: bool)
        ensures
            r == (slot < self@.resources.len() && self@.resources[slot as int].mapped),
    {
        slot < self.resources.len() && self.resources[slot].mapped
    }

    /// Records that the memory of the resource in slot `slot` was mapped or unmapped.
    pub fn set_mapped(&mut self, slot: usize, mapped: bool)
        requires
            old(self)@.wf(),
            slot < old(self)@.resources.len(),
        ensures
            final(self)@.wf(),
            final(self)@ == set_mapped_step(old(self)@, slot as int, mapped),
    {
        let s = self.resources[slot];
        self.resources.set(
            slot,
            ResourceSlot { kind: s.kind, raw: s.raw, device: s.device, owners: s.owners, mapped },
        );
        assert(self@.resources =~= set_mapped_step(old(self)@, slot as int, mapped).resources);
    }
}

/// How many times `t` occurs in `ids`.
pub open spec fn occurrences(ids: Seq<int>, t: int) -> nat
    decreases ids.len(),
{
    if ids.len() == 0 {
        0
    } else {
        (if ids[0] == t { 1nat } else { 0nat }) + occurrences(ids.drop_first(), t)
    }
}

/// The registry after `n` clones of a handle to resource `r`.
pub open spec fn share_times(m: RegistryView, r: int, n: nat) -> RegistryView
    decreases n,
{
    if n == 0 {
        m
    } else {
        share_step(share_times(m, r, (n - 1) as nat), r)
    }
}

/// The number of native releases of resource `t` that dropping the handles named by
/// `ids`, in that order, calls for.
pub open spec fn releases_of(m: RegistryView, ids: Seq<int>, t: int) -> nat
    decreases ids.len(),
{
    if ids.len() == 0 {
        0
    } else {
        let (m2, out) = release_step(m, ids[0]);
        (if ids[0] == t && out is Some { 1nat } else { 0nat }) + releases_of(m2, ids.drop_first(), t)
    }
}

proof fn lemma_share_times(m: RegistryView, r: int, n: nat)
    requires
        m.wf(),
        0 <= r < m.resources.len(),
        m.resources[r].owners + n <= u64::MAX,
    ensures
        share_times(m, r, n).wf(),
        share_times(m, r, n).devices == m.devices,
        share_times(m, r, n).resources.len() == m.resources.len(),
        share_times(m, r, n).resources[r].owners == m.resources[r].owners + n,
        share_times(m, r, n).resources[r].device == m.resources[r].device,
    decreases n,
{
    if n > 0 {
        lemma_share_times(m, r, (n - 1) as nat);
        let p = share_times(m, r, (n - 1) as nat);
        assert forall|i: int| 0 <= i < share_step(p, r).resources.len() implies (
        #[trigger] share_step(p, r).resources[i]).device < share_step(p, r).devices.len() by {
            assert(p.resources[i].device < p.devices.len());
        }
    }
}

proof fn lemma_release_step_frame(m: RegistryView, r: int, t: int)
    requires
        m.wf(),
        0 <= t < m.resources.len(),
    ensures
        release_step(m, r).0.wf(),
        release_step(m, r).0.devices == m.devices,
        release_step(m, r).0.resources.len() == m.resources.len(),
        release_step(m, r).0.resources[t].device == m.resources[t].device,
        r != t ==> release_step(m, r).0.resources[t] == m.resources[t],
        r == t && m.resources[t].owners > 0 ==> release_step(m, r).0.resources[t].owners
            == m.resources[t].owners - 1,
        r == t && m.resources[t].owners > 0 ==> (release_step(m, r).1 is Some <==> (
        m.resources[t].owners == 1 && m.owner_live(t))),
{
    let m2 = release_step(m, r).0;
    assert forall|i: int| 0 <= i < m2.resources.len() implies (#[trigger] m2.resources[i]).device
        < m2.devices.len() by {
        assert(m.resources[i].device < m.devices.len());
    }
}

proof fn lemma_releases_counted(m: RegistryView, ids: Seq<int>, t: int)
    requires
        m.wf(),
        0 <= t < m.resources.len(),
        m.owner_live(t),
        m.resources[t].owners == occurrences(ids, t),
    ensures
        releases_of(m, ids, t) == (if occurrences(ids, t) > 0 { 1nat } else { 0nat }),
    decreases ids.len(),
{
    if ids.len() > 0 {
        lemma_release_step_frame(m, ids[0], t);
        let m2 = release_step(m, ids[0]).0;
        lemma_releases_counted(m2, ids.drop_first(), t);
    }
}

proof fn lemma_no_release_when_owner_gone(m: RegistryView, ids: Seq<int>, t: int)
    requires
        m.wf(),
        0 <= t < m.resources.len(),
        !m.owner_live(t),
    ensures
        releases_of(m, ids, t) == 0,
    decreases ids.len(),
{
    if ids.len() > 0 {
        lemma_release_step_frame(m, ids[0], t);
        lemma_no_release_when_owner_gone(release_step(m, ids[0]).0, ids.drop_first(), t);
    }
}

/// Cloning a handle `n` times and then dropping all `n + 1` handles, in any order and
/// interleaved with drops of any other handles, calls for exactly one native release of
/// that resource, as long as its device is alive.
pub proof fn lemma_clones_release_once(m: RegistryView, r: int, n: nat, drops: Seq<int>)
    requires
        m.wf(),
        m.resource_held(r),
        m.resources[r].owners == 1,
        m.owner_live(r),
        n < u64::MAX,
        occurrences(drops, r) == n + 1,
    ensures
        releases_of(share_times(m, r, n), drops, r) == 1,
{
    lemma_share_times(m, r, n);
    lemma_releases_counted(share_times(m, r, n), drops, r);
}

/// Once the last strong reference to a device is dropped, dropping any handles of a
/// resource it created, in any order, calls for no native release of that resource.
pub proof fn lemma_device_first_no_release(m: RegistryView, r: int, drops: Seq<int>)
    requires
        m.wf(),
        0 <= r < m.resources.len(),
        m.devices[m.resources[r].device as int].owners == 1,
    ensures
        releases_of(drop_device_step(m, m.resources[r].device as int).0, drops, r) == 0,
{
    let d = m.resources[r].device as int;
    let m2 = drop_device_step(m, d).0;
    assert(m2.wf()) by {
        assert forall|i: int| 0 <= i < m2.resources.len() implies (#[trigger] m2.resources[i]).device
            < m2.devices.len() by {
            assert(m.resources[i].device < m.devices.len());
        }
    }
    lemma_no_release_when_owner_gone(m2, drops, r);
}

} // verus!
