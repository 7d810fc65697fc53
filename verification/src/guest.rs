//! One guest: its device model and its devices.

use vstd::prelude::*;
use crate::device::{
    device_wf, teardown_steps, BaoDevice, DeviceModel, TeardownStep,
};
use crate::devicemodel::{BaoDeviceModel, DeviceModelState};
use crate::error::Error;
use crate::mmio::{outcome_view, MmioAction};
use crate::model::{admits, step, BackendInfo};
use crate::types::BaoIoRequest;

verus! {

/// A guest as the contracts see it.
#[verifier::ext_equal]
pub struct GuestModel {
    pub id: u16,
    pub dm: DeviceModelState,
    pub devices: Seq<DeviceModel>,
    pub io_client: bool,
    pub io_events: bool,
}

/// The place of the device whose window starts at `addr`, if the guest has
/// one.
pub open spec fn device_at(devices: Seq<DeviceModel>, addr: u64) -> Option<int> {
    if exists|i: int| 0 <= i < devices.len() && (#[trigger] devices[i]).addr == addr {
        Some(choose|i: int| 0 <= i < devices.len() && (#[trigger] devices[i]).addr == addr)
    } else {
        None
    }
}

/// The invariant of a guest: each of its devices keeps its own, and no two
/// devices have their window at the same address.
pub open spec fn guest_wf(g: GuestModel) -> bool {
    &&& forall|i: int| 0 <= i < g.devices.len() ==> device_wf(#[trigger] g.devices[i])
    &&& forall|i: int, j: int|
        0 <= i < j < g.devices.len() ==> (#[trigger] g.devices[i]).addr != (
        #[trigger] g.devices[j]).addr
}

/// The guest with one more device.
pub open spec fn guest_with(g: GuestModel, dev: DeviceModel) -> GuestModel {
    GuestModel { devices: g.devices.push(dev), ..g }
}

/// The guest without the device whose window starts at `addr`.
pub open spec fn guest_without(g: GuestModel, addr: u64) -> GuestModel {
    match device_at(g.devices, addr) {
        Some(i) => GuestModel { devices: g.devices.remove(i), ..g },
        None => g,
    }
}

/// The steps by which the device whose window starts at `addr` is
/// removed: none if the guest has no such device.
pub open spec fn removal_steps(g: GuestModel, addr: u64) -> Seq<TeardownStep> {
    match device_at(g.devices, addr) {
        Some(i) => teardown_steps(g.devices[i]),
        None => Seq::empty(),
    }
}

/// The window that a trapped access falls into starts where the access
/// faulted, less the offset of the register.
pub open spec fn window_of(req: BaoIoRequest) -> Option<u64> {
    if req.addr >= req.reg_off {
        Some((req.addr - req.reg_off) as u64)
    } else {
        None
    }
}

/// The place of the device that a trapped access is meant for.
pub open spec fn target_of(g: GuestModel, req: BaoIoRequest) -> Option<int> {
    match window_of(req) {
        Some(addr) => device_at(g.devices, addr),
        None => None,
    }
}

/// One guest.
pub struct BaoGuest {
    id: u16,
    dm: BaoDeviceModel,
    devices: Vec<BaoDevice>,
    io_client: bool,
    io_events: bool,
}

/// The devices as the contracts see them.
pub open spec fn devices_view(devices: Seq<BaoDevice>) -> Seq<DeviceModel> {
    devices.map_values(|d: BaoDevice| d@)
}

impl View for BaoGuest {
    type V = GuestModel;

    closed spec fn view(&self) -> GuestModel {
        GuestModel {
            id: self.id,
            dm: self.dm@,
            devices: devices_view(self.devices@),
            io_client: self.io_client,
            io_events: self.io_events,
        }
    }
}

impl BaoGuest {
    /// The invariant of the guest.
    pub open spec fn wf(&self) -> bool {
        guest_wf(self@)
    }

    /// The guest `id` with its device model: it has no device, no I/O
    /// client, and its accesses are not dispatched yet.
    pub fn new(id: u16, dm: BaoDeviceModel) -> (r: Self)
        ensures
            r.wf(),
            r@ == (GuestModel {
                id,
                dm: dm@,
                devices: Seq::empty(),
                io_client: false,
                io_events: false,
            }),
    {
        let r = BaoGuest { id, dm, devices: Vec::new(), io_client: false, io_events: false };
        assert(r@.devices =~= Seq::empty());
        r
    }

    /// The number of the guest.
    pub fn id(&self) -> (r: u16)
        ensures
            r == self@.id,
    {
        self.id
    }

    /// The device model of the guest.
    pub fn dm(&self) -> (r: &BaoDeviceModel)
        ensures
            r@ == self@.dm,
    {
        &self.dm
    }

    /// Gives up the guest for its device model, which is all that is
    /// left of a guest once its devices are gone.
    pub fn into_device_model(self) -> (r: BaoDeviceModel)
        ensures
            r@ == self@.dm,
    {
        self.dm
    }

    /// The place of the device whose window starts at `addr`.
    pub fn find_device(&self, addr: u64) -> (r: Option<usize>)
        requires
            self.wf(),
        ensures
            match r {
                Some(i) => device_at(self@.devices, addr) == Some(i as int),
                None => device_at(self@.devices, addr) is None,
            },
            r matches Some(i) ==> (i < self@.devices.len() && self@.devices[i as int].addr == addr),
    {
        let mut i: usize = 0;
        while i < self.devices.len()
            invariant
                self.wf(),
                i <= self.devices@.len(),
                forall|j: int| 0 <= j < i ==> (#[trigger] self@.devices[j]).addr != addr,
            decreases self.devices@.len() - i,
        {
            if self.devices[i].addr() == addr {
                assert(self@.devices[i as int].addr == addr);
                let ghost found = choose|k: int|
                    0 <= k < self@.devices.len() && (#[trigger] self@.devices[k]).addr == addr;
                assert(found == i) by {
                    if found < i {
                        assert(self@.devices[found].addr != addr);
                    } else if i < found {
                        assert(self@.devices[i as int].addr != self@.devices[found].addr);
                    }
                }
                return Some(i);
            }
            i = i + 1;
        }
        None
    }

    /// Tells whether the guest has a device whose window starts at `addr`.
    pub fn has_device(&self, addr: u64) -> (r: bool)
        requires
            self.wf(),
        ensures
            r == device_at(self@.devices, addr) is Some,
    {
        self.find_device(addr).is_some()
    }

    /// The device at place `at`.
    pub fn device(&self, at: usize) -> (r: &BaoDevice)
        requires
            at < self@.devices.len(),
        ensures
            r@ == self@.devices[at as int],
    {
        &self.devices[at]
    }

    /// The number of devices of the guest.
    pub fn device_count(&self) -> (r: usize)
        ensures
            r == self@.devices.len(),
    {
        self.devices.len()
    }

    /// Adds a device to the guest, after all that the guest had.
    pub fn add_device(&mut self, dev: BaoDevice)
        requires
            old(self).wf(),
            dev.wf(),
            device_at(old(self)@.devices, dev@.addr) is None,
        ensures
            final(self).wf(),
            final(self)@ == guest_with(old(self)@, dev@),
    {
        self.devices.push(dev);
        assert(final(self)@.devices =~= old(self)@.devices.push(dev@));
        assert forall|i: int, j: int| 0 <= i < j < final(self)@.devices.len() implies (
        #[trigger] final(self)@.devices[i]).addr != (#[trigger] final(self)@.devices[j]).addr by {
            if j < old(self)@.devices.len() {
                assert(old(self)@.devices[i].addr != old(self)@.devices[j].addr);
            } else {
                assert(old(self)@.devices[i].addr != dev@.addr);
            }
        }
    }

    /// Tells whether the guest still lacks the I/O client that receives
    /// its trapped accesses: it is created with the first device.
    pub fn needs_io_client(&self) -> (r: bool)
        ensures
            r == !self@.io_client,
    {
        !self.io_client
    }

    /// Records that the guest's I/O client was created and attached.
    pub fn io_client_created(&mut self)
        ensures
            final(self)@ == (GuestModel { io_client: true, ..old(self)@ }),
    {
        self.io_client = true;
    }

    /// Removes the device whose window starts at `addr` and hands back, in
    /// order, the steps that take it down. A guest without such a device
    /// stays as it is, and nothing is to be done.
    pub fn remove_device(&mut self, addr: u64) -> (r: Vec<TeardownStep>)
        requires
            old(self).wf(),
        ensures
            final(self).wf(),
            final(self)@ == guest_without(old(self)@, addr),
            r@ == removal_steps(old(self)@, addr),
    {
        match self.find_device(addr) {
            Some(at) => {
                let mut dev = self.devices.remove(at);
                assert(dev@ == old(self)@.devices[at as int]);
                assert(final(self)@.devices =~= old(self)@.devices.remove(at as int));
                assert forall|i: int| 0 <= i < final(self)@.devices.len() implies device_wf(
                    #[trigger] final(self)@.devices[i],
                ) by {
                    if i < at {
                        assert(device_wf(old(self)@.devices[i]));
                    } else {
                        assert(device_wf(old(self)@.devices[i + 1]));
                    }
                }
                assert forall|i: int, j: int|
                    0 <= i < j < final(self)@.devices.len() implies (
                #[trigger] final(self)@.devices[i]).addr != (
                #[trigger] final(self)@.devices[j]).addr by {
                    let a = if i < at { i } else { i + 1 };
                    let b = if j < at { j } else { j + 1 };
                    assert(old(self)@.devices[a].addr != old(self)@.devices[b].addr);
                }
                dev.teardown()
            },
            None => Vec::new(),
        }
    }

    /// Tells whether the guest has no device left.
    pub fn is_empty(&self) -> (r: bool)
        ensures
            r == (self@.devices.len() == 0),
    {
        self.devices.len() == 0
    }

    /// Has the guest's trapped accesses dispatched from now on. Tells
    /// whether the dispatch has to be started: it runs once per guest.
    pub fn enable_io_events(&mut self) -> (r: bool)
        ensures
            r == !old(self)@.io_events,
            final(self)@ == (GuestModel { io_events: true, ..old(self)@ }),
    {
        let start = !self.io_events;
        self.io_events = true;
        start
    }

    /// The place of the device that a trapped access is meant for: the
    /// one whose window starts where the access faulted, less the offset
    /// of the register.
    pub fn device_for(&self, req: &BaoIoRequest) -> (r: Option<usize>)
        requires
            self.wf(),
        ensures
            match r {
                Some(i) => target_of(self@, *req) == Some(i as int),
                None => target_of(self@, *req) is None,
            },
            r matches Some(i) ==> i < self@.devices.len(),
    {
        if req.addr >= req.reg_off {
            self.find_device(req.addr - req.reg_off)
        } else {
            None
        }
    }

    /// Tells whether the device at place `at` serves the access.
    pub fn serves(&self, at: usize, req: &BaoIoRequest) -> (r: bool)
        requires
            self.wf(),
            at < self@.devices.len(),
        ensures
            r == admits(self@.devices[at as int].mmio, *req),
    {
        self.devices[at].serves(req)
    }

    /// Has the device at place `at` serve one trapped access.
    pub fn io_event(&mut self, at: usize, req: &mut BaoIoRequest, backend: &BackendInfo) -> (r:
        Result<MmioAction, Error>)
        requires
            old(self).wf(),
            at < old(self)@.devices.len(),
            admits(old(self)@.devices[at as int].mmio, *old(req)),
        ensures
            final(self).wf(),
            final(self)@ == (GuestModel {
                devices: old(self)@.devices.update(
                    at as int,
                    DeviceModel {
                        mmio: step(old(self)@.devices[at as int].mmio, *backend, *old(req)).state,
                        ..old(self)@.devices[at as int]
                    },
                ),
                ..old(self)@
            }),
            *final(req) == step(old(self)@.devices[at as int].mmio, *backend, *old(req)).request,
            outcome_view(r) == step(
                old(self)@.devices[at as int].mmio,
                *backend,
                *old(req),
            ).outcome,
    {
        let r = self.devices[at].io_event(req, backend);
        proof {
            let before = old(self)@.devices;
            let after = final(self)@.devices;
            assert(after =~= before.update(
                at as int,
                DeviceModel {
                    mmio: step(before[at as int].mmio, *backend, *old(req)).state,
                    ..before[at as int]
                },
            ));
            assert forall|i: int| 0 <= i < after.len() implies device_wf(#[trigger] after[i]) by {
                if i != at {
                    assert(device_wf(before[i]));
                }
            }
            assert forall|i: int, j: int| 0 <= i < j < after.len() implies (#[trigger] after[i]).addr
                != (#[trigger] after[j]).addr by {
                assert(before[i].addr != before[j].addr);
            }
        }
        r
    }
}

} // verus!
