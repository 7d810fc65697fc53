//! The frontend: the guests that it serves, each with its devices.

use vstd::prelude::*;
use crate::device::{
    device_wf, exit_steps, release_steps, teardown_steps, BaoDevice, DeviceModel, TeardownStep,
};
use crate::guest::{
    device_at, guest_wf, guest_with, guest_without, removal_steps, BaoGuest, GuestModel,
};
use crate::interrupt::irq_removal;
use crate::error::Error;
use crate::mmio::{kick_routes, outcome_view, removal_of, MmioAction};
use crate::model::{admits, step, BackendInfo};
use crate::types::BaoIoRequest;

verus! {

/// The place of the guest `id`, if the frontend has it.
pub open spec fn guest_at(guests: Seq<GuestModel>, id: u16) -> Option<int> {
    if exists|i: int| 0 <= i < guests.len() && (#[trigger] guests[i]).id == id {
        Some(choose|i: int| 0 <= i < guests.len() && (#[trigger] guests[i]).id == id)
    } else {
        None
    }
}

/// The invariant of the frontend: each of its guests keeps its own, and no
/// two guests have the same number.
pub open spec fn frontend_wf(guests: Seq<GuestModel>) -> bool {
    &&& forall|i: int| 0 <= i < guests.len() ==> guest_wf(#[trigger] guests[i])
    &&& forall|i: int, j: int|
        0 <= i < j < guests.len() ==> (#[trigger] guests[i]).id != (#[trigger] guests[j]).id
}

/// The frontend after the guest at place `at` got one more device.
pub open spec fn with_device(guests: Seq<GuestModel>, at: int, dev: DeviceModel) -> Seq<
    GuestModel,
> {
    guests.update(at, guest_with(guests[at], dev))
}

/// The frontend after the device of guest `id` whose window starts at
/// `addr` was removed: a guest that is left without a device goes too.
pub open spec fn without_device(guests: Seq<GuestModel>, id: u16, addr: u64) -> Seq<GuestModel> {
    match guest_at(guests, id) {
        Some(at) => {
            let guest = guest_without(guests[at], addr);
            if guest.devices.len() == 0 {
                guests.remove(at)
            } else {
                guests.update(at, guest)
            }
        },
        None => guests,
    }
}

/// The steps by which the device of guest `id` whose window starts at
/// `addr` is removed.
pub open spec fn device_removal_steps(guests: Seq<GuestModel>, id: u16, addr: u64) -> Seq<
    TeardownStep,
> {
    match guest_at(guests, id) {
        Some(at) => removal_steps(guests[at], addr),
        None => Seq::empty(),
    }
}

/// The guests as the contracts see them.
pub open spec fn guests_view(guests: Seq<BaoGuest>) -> Seq<GuestModel> {
    guests.map_values(|g: BaoGuest| g@)
}

/// The frontend.
pub struct BaoFrontend {
    guests: Vec<BaoGuest>,
}

impl View for BaoFrontend {
    type V = Seq<GuestModel>;

    closed spec fn view(&self) -> Seq<GuestModel> {
        guests_view(self.guests@)
    }
}

proof fn lemma_guest_found(guests: Seq<GuestModel>, at: int)
    requires
        frontend_wf(guests),
        0 <= at < guests.len(),
    ensures
        guest_at(guests, guests[at].id) == Some(at),
{
    let id = guests[at].id;
    let found = choose|i: int| 0 <= i < guests.len() && (#[trigger] guests[i]).id == id;
    if found < at {
        assert(guests[found].id != guests[at].id);
    } else if at < found {
        assert(guests[at].id != guests[found].id);
    }
}

proof fn lemma_device_found(devices: Seq<DeviceModel>, at: int)
    requires
        forall|i: int, j: int|
            0 <= i < j < devices.len() ==> (#[trigger] devices[i]).addr != (
            #[trigger] devices[j]).addr,
        0 <= at < devices.len(),
    ensures
        device_at(devices, devices[at].addr) == Some(at),
{
    let addr = devices[at].addr;
    let found = choose|i: int| 0 <= i < devices.len() && (#[trigger] devices[i]).addr == addr;
    if found < at {
        assert(devices[found].addr != devices[at].addr);
    } else if at < found {
        assert(devices[at].addr != devices[found].addr);
    }
}

/// Adding a device to a guest keeps the invariant of the frontend.
pub proof fn lemma_with_device_wf(guests: Seq<GuestModel>, at: int, dev: DeviceModel)
    requires
        frontend_wf(guests),
        0 <= at < guests.len(),
        device_wf(dev),
        device_at(guests[at].devices, dev.addr) is None,
    ensures
        frontend_wf(with_device(guests, at, dev)),
{
    let after = with_device(guests, at, dev);
    let before = guests[at].devices;
    let devices = after[at].devices;
    assert forall|i: int, j: int| 0 <= i < j < devices.len() implies (#[trigger] devices[i]).addr
        != (#[trigger] devices[j]).addr by {
        assert(guest_wf(guests[at]));
        if j < before.len() {
            assert(before[i].addr != before[j].addr);
        } else {
            assert(before[i].addr != dev.addr);
        }
    }
    assert forall|i: int| 0 <= i < devices.len() implies device_wf(#[trigger] devices[i]) by {
        assert(guest_wf(guests[at]));
        if i < before.len() {
            assert(device_wf(before[i]));
        }
    }
    assert forall|i: int| 0 <= i < after.len() implies guest_wf(#[trigger] after[i]) by {
        if i != at {
            assert(guest_wf(guests[i]));
        }
    }
    assert forall|i: int, j: int| 0 <= i < j < after.len() implies (#[trigger] after[i]).id != (
    #[trigger] after[j]).id by {
        assert(guests[i].id != guests[j].id);
    }
}

/// After a device was added to a guest that had devices already, removing
/// it gives the frontend back as it was before, guest by guest and device
/// by device, and the steps to take are those that take that device down.
pub proof fn lemma_remove_restores(guests: Seq<GuestModel>, at: int, dev: DeviceModel)
    requires
        frontend_wf(guests),
        0 <= at < guests.len(),
        guests[at].devices.len() > 0,
        device_wf(dev),
        device_at(guests[at].devices, dev.addr) is None,
    ensures
        without_device(with_device(guests, at, dev), guests[at].id, dev.addr) == guests,
        device_removal_steps(with_device(guests, at, dev), guests[at].id, dev.addr)
            == teardown_steps(dev),
{
    let after = with_device(guests, at, dev);
    lemma_with_device_wf(guests, at, dev);
    lemma_guest_found(after, at);
    let devices = after[at].devices;
    assert(guest_wf(after[at]));
    lemma_device_found(devices, devices.len() - 1);
    assert(devices.remove(devices.len() - 1) =~= guests[at].devices);
    assert(guest_without(after[at], dev.addr) == guests[at]);
    assert(after.update(at, guests[at]) =~= guests);
}

/// After a guest was created for its first device, removing that device
/// removes the guest with it and gives the frontend back as it was before;
/// the steps to take are those that take that device down.
pub proof fn lemma_remove_restores_new_guest(
    guests: Seq<GuestModel>,
    guest: GuestModel,
    dev: DeviceModel,
)
    requires
        frontend_wf(guests),
        guest_at(guests, guest.id) is None,
        guest.devices.len() == 0,
        device_wf(dev),
    ensures
        without_device(with_device(guests.push(guest), guests.len() as int, dev), guest.id, dev.addr)
            == guests,
        device_removal_steps(
            with_device(guests.push(guest), guests.len() as int, dev),
            guest.id,
            dev.addr,
        ) == teardown_steps(dev),
{
    let at = guests.len() as int;
    let grown = guests.push(guest);
    assert(guest_wf(guest));
    assert forall|i: int, j: int| 0 <= i < j < grown.len() implies (#[trigger] grown[i]).id != (
    #[trigger] grown[j]).id by {
        if j < guests.len() {
            assert(guests[i].id != guests[j].id);
        } else {
            assert(guests[i].id != guest.id);
        }
    }
    assert forall|i: int| 0 <= i < grown.len() implies guest_wf(#[trigger] grown[i]) by {
        if i < guests.len() {
            assert(guest_wf(guests[i]));
        }
    }
    assert(frontend_wf(grown));
    let after = with_device(grown, at, dev);
    lemma_with_device_wf(grown, at, dev);
    lemma_guest_found(after, at);
    let devices = after[at].devices;
    assert(guest_wf(after[at]));
    lemma_device_found(devices, 0);
    assert(devices.remove(0) =~= guest.devices);
    assert(after.remove(at) =~= guests);
}

/// Taking a device down gives back to the kernel every route that was
/// installed for it: the route of its interrupt comes first, if the device
/// has its interrupt; then the backend is reset and shut down; then, queue
/// by queue, the route of each notification is removed under the eventfd,
/// the address, the length and the value under which it was installed.
pub proof fn lemma_teardown_returns_routes(dev: DeviceModel)
    ensures
        teardown_steps(dev) == exit_steps(dev) + release_steps(dev),
        dev.interrupt is Some ==> exit_steps(dev) == seq![
            TeardownStep::DeassignIrq(irq_removal(dev.interrupt->0.call)),
            TeardownStep::ResetBackend,
            TeardownStep::ShutdownBackend,
        ],
        dev.interrupt is None ==> exit_steps(dev) == seq![
            TeardownStep::ResetBackend,
            TeardownStep::ShutdownBackend,
        ],
        release_steps(dev).len() == dev.mmio.vq.len(),
        forall|k: int|
            0 <= k < dev.mmio.vq.len() ==> #[trigger] release_steps(dev)[k]
                == TeardownStep::DeassignKick(removal_of(kick_routes(dev.mmio)[k])),
{
    if dev.interrupt is Some {
        assert(exit_steps(dev) =~= seq![
            TeardownStep::DeassignIrq(irq_removal(dev.interrupt->0.call)),
            TeardownStep::ResetBackend,
            TeardownStep::ShutdownBackend,
        ]);
    }
}

impl BaoFrontend {
    /// The invariant of the frontend.
    pub open spec fn wf(&self) -> bool {
        frontend_wf(self@)
    }

    /// A frontend without guests.
    pub fn new() -> (r: Self)
        ensures
            r.wf(),
            r@ == Seq::<GuestModel>::empty(),
    {
        let r = BaoFrontend { guests: Vec::new() };
        assert(r@ =~= Seq::<GuestModel>::empty());
        r
    }

    /// The number of guests.
    pub fn guest_count(&self) -> (r: usize)
        ensures
            r == self@.len(),
    {
        self.guests.len()
    }

    /// The place of the guest `guest_id`.
    pub fn find(&self, guest_id: u16) -> (r: Option<usize>)
        requires
            self.wf(),
        ensures
            match r {
                Some(i) => guest_at(self@, guest_id) == Some(i as int),
                None => guest_at(self@, guest_id) is None,
            },
            r matches Some(i) ==> (i < self@.len() && self@[i as int].id == guest_id),
    {
        let mut i: usize = 0;
        while i < self.guests.len()
            invariant
                self.wf(),
                i <= self.guests@.len(),
                forall|j: int| 0 <= j < i ==> (#[trigger] self@[j]).id != guest_id,
            decreases self.guests@.len() - i,
        {
            if self.guests[i].id() == guest_id {
                proof {
                    lemma_guest_found(self@, i as int);
                }
                return Some(i);
            }
            i = i + 1;
        }
        None
    }

    /// The guest at place `at`.
    pub fn guest(&self, at: usize) -> (r: &BaoGuest)
        requires
            at < self@.len(),
        ensures
            r@ == self@[at as int],
    {
        &self.guests[at]
    }

    /// Adds a guest that the frontend did not have, after all its guests.
    pub fn add(&mut self, guest: BaoGuest)
        requires
            old(self).wf(),
            guest.wf(),
            guest_at(old(self)@, guest@.id) is None,
        ensures
            final(self).wf(),
            final(self)@ == old(self)@.push(guest@),
    {
        self.guests.push(guest);
        assert(final(self)@ =~= old(self)@.push(guest@));
        assert forall|i: int, j: int| 0 <= i < j < final(self)@.len() implies (
        #[trigger] final(self)@[i]).id != (#[trigger] final(self)@[j]).id by {
            if j < old(self)@.len() {
                assert(old(self)@[i].id != old(self)@[j].id);
            } else {
                assert(old(self)@[i].id != guest@.id);
            }
        }
    }

    /// Takes the guest `guest_id` out of the frontend.
    pub fn remove(&mut self, guest_id: u16) -> (r: BaoGuest)
        requires
            old(self).wf(),
            guest_at(old(self)@, guest_id) is Some,
        ensures
            final(self).wf(),
            final(self)@ == old(self)@.remove(guest_at(old(self)@, guest_id)->0),
            r@ == old(self)@[guest_at(old(self)@, guest_id)->0],
    {
        let at = self.find(guest_id).unwrap();
        let guest = self.guests.remove(at);
        proof {
            Self::lemma_removed(old(self)@, final(self)@, at as int);
        }
        guest
    }

    proof fn lemma_removed(before: Seq<GuestModel>, after: Seq<GuestModel>, at: int)
        requires
            frontend_wf(before),
            0 <= at < before.len(),
            after =~= before.remove(at),
        ensures
            frontend_wf(after),
            after == before.remove(at),
    {
        assert forall|i: int| 0 <= i < after.len() implies guest_wf(#[trigger] after[i]) by {
            if i < at {
                assert(guest_wf(before[i]));
            } else {
                assert(guest_wf(before[i + 1]));
            }
        }
        assert forall|i: int, j: int| 0 <= i < j < after.len() implies (#[trigger] after[i]).id != (
        #[trigger] after[j]).id by {
            let a = if i < at { i } else { i + 1 };
            let b = if j < at { j } else { j + 1 };
            assert(before[a].id != before[b].id);
        }
    }

    /// Adds a device to the guest `guest_id`, after all that the guest had.
    pub fn add_device(&mut self, guest_id: u16, dev: BaoDevice)
        requires
            old(self).wf(),
            dev.wf(),
            guest_at(old(self)@, guest_id) is Some,
            device_at(old(self)@[guest_at(old(self)@, guest_id)->0].devices, dev@.addr) is None,
        ensures
            final(self).wf(),
            final(self)@ == with_device(old(self)@, guest_at(old(self)@, guest_id)->0, dev@),
    {
        let at = self.find(guest_id).unwrap();
        assert(guest_wf(self@[at as int]));
        self.guests[at].add_device(dev);
        proof {
            assert(final(self)@ =~= with_device(old(self)@, at as int, dev@));
            lemma_with_device_wf(old(self)@, at as int, dev@);
        }
    }

    proof fn lemma_guest_replaced(before: Seq<GuestModel>, at: int, guest: GuestModel)
        requires
            frontend_wf(before),
            0 <= at < before.len(),
            guest_wf(guest),
            guest.id == before[at].id,
        ensures
            frontend_wf(before.update(at, guest)),
    {
        let after = before.update(at, guest);
        assert forall|i: int| 0 <= i < after.len() implies guest_wf(#[trigger] after[i]) by {
            if i != at {
                assert(guest_wf(before[i]));
            }
        }
        assert forall|i: int, j: int| 0 <= i < j < after.len() implies (#[trigger] after[i]).id != (
        #[trigger] after[j]).id by {
            assert(before[i].id != before[j].id);
        }
    }

    /// Records that the I/O client of the guest at place `at` was created
    /// and attached.
    pub fn io_client_created(&mut self, at: usize)
        requires
            old(self).wf(),
            at < old(self)@.len(),
        ensures
            final(self).wf(),
            final(self)@ == old(self)@.update(
                at as int,
                GuestModel { io_client: true, ..old(self)@[at as int] },
            ),
    {
        assert(guest_wf(self@[at as int]));
        self.guests[at].io_client_created();
        proof {
            let guest = GuestModel { io_client: true, ..old(self)@[at as int] };
            assert(final(self)@ =~= old(self)@.update(at as int, guest));
            Self::lemma_guest_replaced(old(self)@, at as int, guest);
        }
    }

    /// Has the trapped accesses of the guest at place `at` dispatched from
    /// now on. Tells whether the dispatch has to be started.
    pub fn enable_io_events(&mut self, at: usize) -> (r: bool)
        requires
            old(self).wf(),
            at < old(self)@.len(),
        ensures
            final(self).wf(),
            r == !old(self)@[at as int].io_events,
            final(self)@ == old(self)@.update(
                at as int,
                GuestModel { io_events: true, ..old(self)@[at as int] },
            ),
    {
        assert(guest_wf(self@[at as int]));
        let r = self.guests[at].enable_io_events();
        proof {
            let guest = GuestModel { io_events: true, ..old(self)@[at as int] };
            assert(final(self)@ =~= old(self)@.update(at as int, guest));
            Self::lemma_guest_replaced(old(self)@, at as int, guest);
        }
        r
    }

    /// Has the device at place `device` of the guest at place `at` serve
    /// one trapped access.
    pub fn io_event(
        &mut self,
        at: usize,
        device: usize,
        req: &mut BaoIoRequest,
        backend: &BackendInfo,
    ) -> (r: Result<MmioAction, Error>)
        requires
            old(self).wf(),
            at < old(self)@.len(),
            device < old(self)@[at as int].devices.len(),
            admits(old(self)@[at as int].devices[device as int].mmio, *old(req)),
        ensures
            final(self).wf(),
            final(self)@ == old(self)@.update(
                at as int,
                GuestModel {
                    devices: old(self)@[at as int].devices.update(
                        device as int,
                        DeviceModel {
                            mmio: step(
                                old(self)@[at as int].devices[device as int].mmio,
                                *backend,
                                *old(req),
                            ).state,
                            ..old(self)@[at as int].devices[device as int]
                        },
                    ),
                    ..old(self)@[at as int]
                },
            ),
            *final(req) == step(
                old(self)@[at as int].devices[device as int].mmio,
                *backend,
                *old(req),
            ).request,
            outcome_view(r) == step(
                old(self)@[at as int].devices[device as int].mmio,
                *backend,
                *old(req),
            ).outcome,
    {
        assert(guest_wf(self@[at as int]));
        let r = self.guests[at].io_event(device, req, backend);
        proof {
            let before = old(self)@[at as int];
            let guest = GuestModel {
                devices: before.devices.update(
                    device as int,
                    DeviceModel {
                        mmio: step(before.devices[device as int].mmio, *backend, *old(req)).state,
                        ..before.devices[device as int]
                    },
                ),
                ..before
            };
            assert(final(self)@ =~= old(self)@.update(at as int, guest));
            Self::lemma_guest_replaced(old(self)@, at as int, guest);
        }
        r
    }

    /// Removes the device of guest `guest_id` whose window starts at
    /// `addr`, and the guest with it if that was its last device. Hands
    /// back, in order, the steps that take the device down, and the guest
    /// if it was removed.
    pub fn remove_device(&mut self, guest_id: u16, addr: u64) -> (r: (
        Vec<TeardownStep>,
        Option<BaoGuest>,
    ))
        requires
            old(self).wf(),
            guest_at(old(self)@, guest_id) is Some,
        ensures
            final(self).wf(),
            final(self)@ == without_device(old(self)@, guest_id, addr),
            r.0@ == device_removal_steps(old(self)@, guest_id, addr),
            r.1 is Some <==> final(self)@.len() < old(self)@.len(),
            r.1 matches Some(guest) ==> guest@ == guest_without(
                old(self)@[guest_at(old(self)@, guest_id)->0],
                addr,
            ),
    {
        let at = self.find(guest_id).unwrap();
        assert(guest_wf(self@[at as int]));
        let steps = self.guests[at].remove_device(addr);
        let ghost middle = self@;
        proof {
            assert(middle =~= old(self)@.update(
                at as int,
                guest_without(old(self)@[at as int], addr),
            ));
            assert forall|i: int| 0 <= i < middle.len() implies guest_wf(#[trigger] middle[i]) by {
                if i != at {
                    assert(guest_wf(old(self)@[i]));
                }
            }
            assert forall|i: int, j: int| 0 <= i < j < middle.len() implies (
            #[trigger] middle[i]).id != (#[trigger] middle[j]).id by {
                assert(old(self)@[i].id != old(self)@[j].id);
            }
        }
        if self.guests[at].is_empty() {
            let guest = self.guests.remove(at);
            proof {
                Self::lemma_removed(middle, final(self)@, at as int);
                assert(final(self)@ =~= old(self)@.remove(at as int));
            }
            (steps, Some(guest))
        } else {
            (steps, None)
        }
    }
}

} // verus!
