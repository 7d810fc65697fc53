//! One virtio device: its engine and its interrupt.

use vstd::prelude::*;
use crate::error::Error;
use crate::interrupt::{irq_removal, irq_route, BaoInterrupt};
use crate::mmio::{kick_removals, model_wf, outcome_view, BaoMmio, MmioAction};
use crate::model::{admits, step, BackendInfo, MmioModel};
use crate::types::{BaoIoEventFd, BaoIoRequest, BaoIrqFd};

verus! {

/// One thing to do when a device goes away.
#[derive(Clone, Copy, Debug, PartialEq, Eq)]
pub enum TeardownStep {
    /// Remove the route from the call eventfd to the interrupt line.
    DeassignIrq(BaoIrqFd),
    /// Reset the backend.
    ResetBackend,
    /// Shut the backend's connection down.
    ShutdownBackend,
    /// Remove the route from a queue's notification to its eventfd.
    DeassignKick(BaoIoEventFd),
}

/// A device as the contracts see it.
#[verifier::ext_equal]
pub struct DeviceModel {
    pub id: u64,
    pub irq: u64,
    pub addr: u64,
    pub mmio: MmioModel,
    pub interrupt: Option<BaoInterrupt>,
}

/// What leaving does to a device: its interrupt is gone.
pub open spec fn exited(d: DeviceModel) -> DeviceModel {
    DeviceModel { interrupt: None, ..d }
}

/// The steps by which a device leaves: the route of its interrupt is
/// removed if it is still there, then the backend is reset and shut down.
pub open spec fn exit_steps(d: DeviceModel) -> Seq<TeardownStep> {
    let backend = seq![TeardownStep::ResetBackend, TeardownStep::ShutdownBackend];
    match d.interrupt {
        Some(interrupt) => seq![TeardownStep::DeassignIrq(irq_removal(interrupt.call))] + backend,
        None => backend,
    }
}

/// The steps that give the routes of a device's virtqueues back.
pub open spec fn release_steps(d: DeviceModel) -> Seq<TeardownStep> {
    kick_removals(d.mmio).map_values(|route: BaoIoEventFd| TeardownStep::DeassignKick(route))
}

/// All the steps by which a device is removed: it leaves, then it gives
/// the routes of its virtqueues back.
pub open spec fn teardown_steps(d: DeviceModel) -> Seq<TeardownStep> {
    exit_steps(d) + release_steps(d)
}

/// The route of a device's interrupt is removed once: when the device
/// leaves for the first time. A device that has left has no interrupt,
/// and leaving again removes no route.
pub proof fn lemma_interrupt_leaves_once(d: DeviceModel)
    ensures
        exited(d).interrupt is None,
        exit_steps(exited(d)) == seq![TeardownStep::ResetBackend, TeardownStep::ShutdownBackend],
        d.interrupt is Some ==> exit_steps(d)[0] == TeardownStep::DeassignIrq(
            irq_removal(d.interrupt->0.call),
        ),
        forall|i: int|
            0 <= i < exit_steps(d).len() && (#[trigger] exit_steps(d)[i]) is DeassignIrq ==> i == 0
                && d.interrupt is Some,
{
}

/// One virtio device.
pub struct BaoDevice {
    id: u64,
    irq: u64,
    addr: u64,
    mmio: BaoMmio,
    interrupt: Option<BaoInterrupt>,
}

impl View for BaoDevice {
    type V = DeviceModel;

    closed spec fn view(&self) -> DeviceModel {
        DeviceModel {
            id: self.id,
            irq: self.irq,
            addr: self.addr,
            mmio: self.mmio@,
            interrupt: self.interrupt,
        }
    }
}

/// The invariant of a device: that of its register file, which is the one
/// of the device's own window.
pub open spec fn device_wf(d: DeviceModel) -> bool {
    model_wf(d.mmio) && d.mmio.addr == d.addr
}

impl BaoDevice {
    /// The invariant of the device.
    pub open spec fn wf(&self) -> bool {
        device_wf(self@)
    }

    /// The device of class `id` on interrupt line `irq` that is served by
    /// `mmio`, at whose address its window starts, and whose interrupt has
    /// the call eventfd `call`; with it, the request that installs the
    /// route of the interrupt.
    pub fn new(id: u64, irq: u64, mmio: BaoMmio, call: i32) -> (r: (Self, BaoIrqFd))
        requires
            mmio.wf(),
        ensures
            r.0.wf(),
            r.0@ == (DeviceModel {
                id,
                irq,
                addr: mmio@.addr,
                mmio: mmio@,
                interrupt: Some(BaoInterrupt { irq, call }),
            }),
            r.1 == irq_route(call),
    {
        let addr = mmio.addr();
        let (interrupt, route) = BaoInterrupt::new(irq, call);
        (BaoDevice { id, irq, addr, mmio, interrupt: Some(interrupt) }, route)
    }

    /// The number of the device's class.
    pub fn id(&self) -> (r: u64)
        ensures
            r == self@.id,
    {
        self.id
    }

    /// The interrupt line of the device.
    pub fn irq(&self) -> (r: u64)
        ensures
            r == self@.irq,
    {
        self.irq
    }

    /// The address at which the device's window starts.
    pub fn addr(&self) -> (r: u64)
        ensures
            r == self@.addr,
    {
        self.addr
    }

    /// Tells whether the device still has its interrupt: it has, until it
    /// leaves.
    pub fn has_interrupt(&self) -> (r: bool)
        ensures
            r == self@.interrupt is Some,
    {
        self.interrupt.is_some()
    }

    /// The interrupt of the device.
    pub fn interrupt(&self) -> (r: BaoInterrupt)
        requires
            self@.interrupt is Some,
        ensures
            Some(r) == self@.interrupt,
    {
        self.interrupt.unwrap()
    }

    /// The engine of the device.
    pub fn mmio(&self) -> (r: &BaoMmio)
        ensures
            r@ == self@.mmio,
    {
        &self.mmio
    }

    /// Tells whether the device serves the access in its present state.
    pub fn serves(&self, req: &BaoIoRequest) -> (r: bool)
        requires
            self.wf(),
        ensures
            r == admits(self@.mmio, *req),
    {
        self.mmio.serves(req)
    }

    /// Serves one trapped access with the device's engine.
    pub fn io_event(&mut self, req: &mut BaoIoRequest, backend: &BackendInfo) -> (r: Result<
        MmioAction,
        Error,
    >)
        requires
            old(self).wf(),
            admits(old(self)@.mmio, *old(req)),
        ensures
            final(self).wf(),
            final(self)@ == (DeviceModel {
                mmio: step(old(self)@.mmio, *backend, *old(req)).state,
                ..old(self)@
            }),
            *final(req) == step(old(self)@.mmio, *backend, *old(req)).request,
            outcome_view(r) == step(old(self)@.mmio, *backend, *old(req)).outcome,
    {
        self.mmio.io_event(req, backend)
    }

    /// Makes the device leave: says, in order, what is to be done, and
    /// forgets the interrupt, so that its route is removed once.
    pub fn exit(&mut self) -> (r: Vec<TeardownStep>)
        requires
            old(self).wf(),
        ensures
            final(self).wf(),
            final(self)@ == exited(old(self)@),
            r@ == exit_steps(old(self)@),
    {
        let mut steps: Vec<TeardownStep> = Vec::new();
        if let Some(interrupt) = self.interrupt.take() {
            steps.push(TeardownStep::DeassignIrq(interrupt.exit()));
        }
        steps.push(TeardownStep::ResetBackend);
        steps.push(TeardownStep::ShutdownBackend);
        assert(steps@ =~= exit_steps(old(self)@));
        steps
    }

    /// The steps that give the routes of the device's virtqueues back,
    /// in the order of the queues.
    pub fn release(&self) -> (r: Vec<TeardownStep>)
        requires
            self.wf(),
        ensures
            r@ == release_steps(self@),
    {
        let routes = self.mmio.release_routes();
        let mut steps: Vec<TeardownStep> = Vec::new();
        let mut k: usize = 0;
        while k < routes.len()
            invariant
                k <= routes.len(),
                steps@ == routes@.subrange(0, k as int).map_values(
                    |route: BaoIoEventFd| TeardownStep::DeassignKick(route),
                ),
            decreases routes.len() - k,
        {
            steps.push(TeardownStep::DeassignKick(routes[k]));
            k = k + 1;
            assert(steps@ =~= routes@.subrange(0, k as int).map_values(
                |route: BaoIoEventFd| TeardownStep::DeassignKick(route),
            ));
        }
        assert(routes@.subrange(0, k as int) =~= routes@);
        steps
    }

    /// Removes the device: it leaves, then gives the routes of its
    /// virtqueues back. The steps are handed back in the order in which
    /// they are to be done.
    pub fn teardown(&mut self) -> (r: Vec<TeardownStep>)
        requires
            old(self).wf(),
        ensures
            final(self).wf(),
            final(self)@ == exited(old(self)@),
            r@ == teardown_steps(old(self)@),
    {
        let mut steps = self.exit();
        let mut routes = self.release();
        steps.append(&mut routes);
        steps
    }
}

} // verus!
