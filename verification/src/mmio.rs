//! The virtio-MMIO engine of one device.
//!
//! It keeps the register file, decodes each trapped access as the
//! state machine of `model` says, and hands back what the backend has to
//! be asked to do. It also names the kernel routes that make a queue
//! notification wake the queue's eventfd without a trap.

use vstd::prelude::*;
use virtio_queue::Queue;
use crate::defs::{
    BAO_IOEVENTFD_FLAG_DATAMATCH, BAO_IOEVENTFD_FLAG_DEASSIGN, BAO_IO_READ, BAO_IO_WRITE,
    CONFIG_ACCESS_MAX, MMIO_MAGIC, MMIO_VENDOR_ID, MMIO_VERSION, QUEUE_NOTIFY_LEN,
    VHOST_USER_CONFIG_OFFSET, VIRTIO_MMIO_CONFIG_GENERATION, VIRTIO_MMIO_DEVICE_FEATURES,
    VIRTIO_MMIO_DEVICE_FEATURES_SEL, VIRTIO_MMIO_DEVICE_ID, VIRTIO_MMIO_DRIVER_FEATURES,
    VIRTIO_MMIO_DRIVER_FEATURES_SEL, VIRTIO_MMIO_INTERRUPT_ACK, VIRTIO_MMIO_INTERRUPT_STATUS,
    VIRTIO_MMIO_INT_VRING, VIRTIO_MMIO_MAGIC_VALUE, VIRTIO_MMIO_QUEUE_AVAIL_HIGH,
    VIRTIO_MMIO_QUEUE_AVAIL_LOW, VIRTIO_MMIO_QUEUE_DESC_HIGH, VIRTIO_MMIO_QUEUE_DESC_LOW,
    VIRTIO_MMIO_QUEUE_NOTIFY, VIRTIO_MMIO_QUEUE_NUM, VIRTIO_MMIO_QUEUE_NUM_MAX,
    VIRTIO_MMIO_QUEUE_READY, VIRTIO_MMIO_QUEUE_SEL, VIRTIO_MMIO_QUEUE_USED_HIGH,
    VIRTIO_MMIO_QUEUE_USED_LOW, VIRTIO_MMIO_STATUS, VIRTIO_MMIO_VENDOR_ID, VIRTIO_MMIO_VERSION,
};
use crate::error::Error;
use crate::model::{
    admits, feature_window, finalised, low_byte, low_half, low_word, offered_features,
    read_register, reads_queue, selected, step, with_selected, write_driver_features,
    write_register, writes_queue, ActionModel, BackendInfo, MmioModel, PendingQueue, RamRegion,
    VirtQueue, FEATURE_IOMMU_PLATFORM, FEATURE_VERSION_1,
};
use crate::types::{BaoIoEventFd, BaoIoRequest};
use crate::vring::{configured_queue, is_queue_size_valid, queue_state, vring_state};

verus! {

/// What the caller has to do after an access was decoded.
#[derive(Debug, PartialEq, Eq)]
pub enum MmioAction {
    /// Nothing: the request can go back to the hypervisor.
    Done,
    /// Read `width` bytes of the backend's configuration space at `offset`
    /// and store them in the request with `BaoMmio::config_value`.
    ReadConfig { offset: u64, width: u32 },
    /// Write the first `width` bytes of `value` to the backend's
    /// configuration space at `offset`.
    WriteConfig { offset: u64, value: u64, width: u32 },
    /// Negotiate these driver features with the backend, with no protocol
    /// feature.
    NegotiateFeatures { features: u64 },
    /// Activate the backend on this guest memory with these queues: for
    /// each, its index, its queue object and its kick eventfd.
    Activate { regions: Vec<RamRegion>, queues: Vec<(usize, Queue, u32)> },
}

/// A call on the backend that can fail.
#[derive(Clone, Copy, Debug, PartialEq, Eq)]
pub enum BackendCall {
    /// The opening of the connection to the backend.
    Connect,
    /// The negotiation of features.
    Negotiate,
    /// The activation.
    Activate,
}

/// The error that the failure of a call on the backend is reported as.
pub open spec fn backend_failure(call: BackendCall, reason: String) -> Error {
    match call {
        BackendCall::Connect => Error::VhostFrontendError(reason),
        BackendCall::Negotiate => Error::VhostFrontendError(reason),
        BackendCall::Activate => Error::VhostFrontendActivateError(reason),
    }
}

/// The call on the backend that an action asks for and that can fail: a
/// negotiation or an activation. The configuration space is read and
/// written without an answer.
pub open spec fn call_of(action: ActionModel) -> Option<BackendCall> {
    match action {
        ActionModel::NegotiateFeatures { .. } => Some(BackendCall::Negotiate),
        ActionModel::Activate { .. } => Some(BackendCall::Activate),
        _ => None,
    }
}

/// Reports the failure of a call on the backend, with the backend's own
/// words for it.
pub fn backend_error(call: BackendCall, reason: String) -> (r: Error)
    ensures
        r == backend_failure(call, reason),
{
    match call {
        BackendCall::Connect => Error::VhostFrontendError(reason),
        BackendCall::Negotiate => Error::VhostFrontendError(reason),
        BackendCall::Activate => Error::VhostFrontendActivateError(reason),
    }
}

/// A pending queue as the model sees it.
pub open spec fn pending_of(t: (usize, Queue, u32)) -> PendingQueue {
    PendingQueue { index: t.0, state: queue_state(t.1), kick: t.2 }
}

/// The pending queues as the model sees them.
pub open spec fn pending_view(s: Seq<(usize, Queue, u32)>) -> Seq<PendingQueue> {
    s.map_values(|t: (usize, Queue, u32)| pending_of(t))
}

impl View for MmioAction {
    type V = ActionModel;

    open spec fn view(&self) -> ActionModel {
        match *self {
            MmioAction::Done => ActionModel::Done,
            MmioAction::ReadConfig { offset, width } => ActionModel::ReadConfig { offset, width },
            MmioAction::WriteConfig { offset, value, width } => ActionModel::WriteConfig {
                offset,
                value,
                width,
            },
            MmioAction::NegotiateFeatures { features } => ActionModel::NegotiateFeatures {
                features,
            },
            MmioAction::Activate { regions, queues } => ActionModel::Activate {
                regions: regions@,
                queues: pending_view(queues@),
            },
        }
    }
}

impl MmioAction {
    /// The call on the backend that the action asks for and that can
    /// fail.
    pub fn call(&self) -> (r: Option<BackendCall>)
        ensures
            r == call_of(self@),
    {
        match self {
            MmioAction::NegotiateFeatures { .. } => Some(BackendCall::Negotiate),
            MmioAction::Activate { .. } => Some(BackendCall::Activate),
            _ => None,
        }
    }
}

/// The outcome of an access as the model sees it.
pub open spec fn outcome_view(r: Result<MmioAction, Error>) -> Result<ActionModel, Error> {
    match r {
        Ok(action) => Ok(action@),
        Err(e) => Err(e),
    }
}

/// No virtqueue of the device is woken through the eventfd `kick`.
pub open spec fn kick_is_new(m: MmioModel, kick: u32) -> bool {
    forall|i: int| 0 <= i < m.vq.len() ==> (#[trigger] m.vq[i]).kick != kick
}

/// The invariant of the register file: the device has no more virtqueues
/// than it announced, each with an eventfd of its own; fewer queues are
/// pending than it announced, and each pending queue is one of its
/// virtqueues.
pub open spec fn model_wf(m: MmioModel) -> bool {
    &&& m.addr + VIRTIO_MMIO_QUEUE_NOTIFY <= u64::MAX
    &&& m.vq.len() <= m.queues_count <= usize::MAX
    &&& forall|i: int, j: int|
        0 <= i < j < m.vq.len() ==> (#[trigger] m.vq[i]).kick != (#[trigger] m.vq[j]).kick
    &&& m.pending.len() < m.queues_count || m.pending.len() == 0
    &&& forall|i: int| 0 <= i < m.pending.len() ==> (#[trigger] m.pending[i]).index < m.vq.len()
}

/// The route that makes a store of `index` to the queue notify register of
/// the device at `addr` wake the eventfd `kick`.
pub open spec fn kick_route(addr: u64, index: nat, kick: u32) -> BaoIoEventFd {
    BaoIoEventFd {
        fd: kick,
        flags: BAO_IOEVENTFD_FLAG_DATAMATCH,
        addr: (addr + VIRTIO_MMIO_QUEUE_NOTIFY) as u64,
        len: QUEUE_NOTIFY_LEN,
        reserved: 0,
        data: index as u64,
    }
}

/// The request that removes a route: the same eventfd, address, length and
/// value, with the flag that asks for removal.
pub open spec fn removal_of(route: BaoIoEventFd) -> BaoIoEventFd {
    BaoIoEventFd { flags: BAO_IOEVENTFD_FLAG_DEASSIGN, ..route }
}

/// The routes of a device's virtqueues, in the order of their indices.
pub open spec fn kick_routes(m: MmioModel) -> Seq<BaoIoEventFd> {
    Seq::new(m.vq.len(), |k: int| kick_route(m.addr, k as nat, m.vq[k].kick))
}

/// The requests that remove the routes of a device's virtqueues.
pub open spec fn kick_removals(m: MmioModel) -> Seq<BaoIoEventFd> {
    Seq::new(m.vq.len(), |k: int| removal_of(kick_route(m.addr, k as nat, m.vq[k].kick)))
}

/// The mapping of a guest's memory: the whole of it, taken from the memory
/// file at the guest's physical base, seen by the backend from guest
/// address zero on.
pub open spec fn guest_ram(ram_addr: u64, ram_size: u64) -> RamRegion {
    RamRegion { guest_base: 0, file_offset: ram_addr, len: ram_size }
}

/// The virtio-MMIO engine of one device.
pub struct BaoMmio {
    addr: u64,
    status: u32,
    queue_sel: u32,
    device_features_sel: u32,
    driver_features: u64,
    driver_features_sel: u32,
    interrupt_state: u32,
    queues_count: usize,
    queues: Vec<(usize, Queue, u32)>,
    vq: Vec<VirtQueue>,
    regions: Vec<RamRegion>,
}

impl View for BaoMmio {
    type V = MmioModel;

    closed spec fn view(&self) -> MmioModel {
        MmioModel {
            addr: self.addr,
            status: self.status,
            queue_sel: self.queue_sel,
            device_features_sel: self.device_features_sel,
            driver_features: self.driver_features,
            driver_features_sel: self.driver_features_sel,
            interrupt_state: self.interrupt_state,
            queues_count: self.queues_count as nat,
            vq: self.vq@,
            pending: pending_view(self.queues@),
            regions: self.regions@,
        }
    }
}

/// The 32-bit window `sel` of the features offered to the driver.
fn device_features_window(features: u64, sel: u32) -> (r: u32)
    requires
        sel <= 1,
    ensures
        r == feature_window(offered_features(features), sel),
{
    let offered = features | FEATURE_VERSION_1 | FEATURE_IOMMU_PLATFORM;
    if sel == 0 {
        assert(offered & 0xffff_ffff <= 0xffff_ffff) by (bit_vector);
        (offered & 0xffff_ffff) as u32
    } else {
        assert(offered >> 32 <= 0xffff_ffff) by (bit_vector);
        (offered >> 32) as u32
    }
}

/// The low 32 bits of a stored value.
fn word_of(value: u64) -> (r: u32)
    ensures
        r == low_word(value),
{
    assert(value & 0xffff_ffff <= 0xffff_ffff) by (bit_vector);
    (value & 0xffff_ffff) as u32
}

/// The low 16 bits of a queue size register.
fn half_of(value: u32) -> (r: u16)
    ensures
        r == low_half(value),
{
    assert(value & 0xffff <= 0xffff) by (bit_vector);
    (value & 0xffff) as u16
}

/// The low 8 bits of an operation code.
fn byte_of(value: u32) -> (r: u8)
    ensures
        r == low_byte(value),
{
    assert(value & 0xff <= 0xff) by (bit_vector);
    (value & 0xff) as u8
}

/// A guest address made of its two words.
fn address_of(low: u32, high: u32) -> (r: u64)
    ensures
        r == crate::vring::ring_address(low, high),
{
    ((high as u64) << 32) | (low as u64)
}

impl BaoMmio {
    /// The invariant of the engine.
    pub open spec fn wf(&self) -> bool {
        model_wf(self@)
    }

    /// The engine of a device whose window starts at `addr` and whose
    /// backend announced `queues_count` virtqueues: every register is
    /// zero, and no virtqueue and no guest memory is known yet.
    pub fn new(addr: u64, queues_count: usize) -> (r: Self)
        requires
            addr + VIRTIO_MMIO_QUEUE_NOTIFY <= u64::MAX,
        ensures
            r.wf(),
            r@ == (MmioModel {
                addr,
                status: 0,
                queue_sel: 0,
                device_features_sel: 0,
                driver_features: 0,
                driver_features_sel: 0,
                interrupt_state: 0,
                queues_count: queues_count as nat,
                vq: Seq::empty(),
                pending: Seq::empty(),
                regions: Seq::empty(),
            }),
    {
        let r = BaoMmio {
            addr,
            status: 0,
            queue_sel: 0,
            device_features_sel: 0,
            driver_features: 0,
            driver_features_sel: 0,
            interrupt_state: 0,
            queues_count,
            queues: Vec::new(),
            vq: Vec::new(),
            regions: Vec::new(),
        };
        assert(r@.pending =~= Seq::empty());
        assert(r@.vq =~= Seq::empty());
        assert(r@.regions =~= Seq::empty());
        r
    }

    /// The address at which the device's window starts.
    pub fn addr(&self) -> (r: u64)
        ensures
            r == self@.addr,
    {
        self.addr
    }

    /// The device status register.
    pub fn status(&self) -> (r: u32)
        ensures
            r == self@.status,
    {
        self.status
    }

    /// The index of the selected virtqueue.
    pub fn queue_sel(&self) -> (r: u32)
        ensures
            r == self@.queue_sel,
    {
        self.queue_sel
    }

    /// The features that the driver has written so far.
    pub fn driver_features(&self) -> (r: u64)
        ensures
            r == self@.driver_features,
    {
        self.driver_features
    }

    /// The number of virtqueues that the backend announced.
    pub fn queues_count(&self) -> (r: usize)
        ensures
            r == self@.queues_count,
    {
        self.queues_count
    }

    /// The number of virtqueues that the engine knows.
    pub fn queue_len(&self) -> (r: usize)
        ensures
            r == self@.vq.len(),
    {
        self.vq.len()
    }

    /// The registers of the virtqueue `index`.
    pub fn queue(&self, index: usize) -> (r: Option<VirtQueue>)
        ensures
            index < self@.vq.len() ==> r == Some(self@.vq[index as int]),
            index >= self@.vq.len() ==> r is None,
    {
        if index < self.vq.len() {
            Some(self.vq[index])
        } else {
            None
        }
    }

    /// The number of queues that wait for the activation of the device.
    pub fn pending_len(&self) -> (r: usize)
        ensures
            r == self@.pending.len(),
    {
        self.queues.len()
    }

    /// The queue at place `at` among those that wait for the activation
    /// of the device.
    pub fn pending(&self, at: usize) -> (r: Option<PendingQueue>)
        ensures
            at < self@.pending.len() ==> r == Some(self@.pending[at as int]),
            at >= self@.pending.len() ==> r is None,
    {
        if at < self.queues.len() {
            let state = vring_state(&self.queues[at].1);
            Some(PendingQueue { index: self.queues[at].0, state, kick: self.queues[at].2 })
        } else {
            None
        }
    }

    /// The number of regions of guest memory that the engine holds.
    pub fn regions_len(&self) -> (r: usize)
        ensures
            r == self@.regions.len(),
    {
        self.regions.len()
    }

    /// Tells whether the device window that starts at `addr` leaves room
    /// for the registers: the condition under which `new` takes `addr`.
    pub fn window_fits(addr: u64) -> (r: bool)
        ensures
            r == (addr + VIRTIO_MMIO_QUEUE_NOTIFY <= u64::MAX),
    {
        addr <= u64::MAX - (VIRTIO_MMIO_QUEUE_NOTIFY as u64)
    }

    /// The route to install for the next virtqueue, whose notification is
    /// to wake the eventfd `kick`.
    pub fn next_route(&self, kick: u32) -> (r: BaoIoEventFd)
        requires
            self.wf(),
        ensures
            r == kick_route(self@.addr, self@.vq.len(), kick),
    {
        BaoIoEventFd {
            fd: kick,
            flags: BAO_IOEVENTFD_FLAG_DATAMATCH,
            addr: self.addr + (VIRTIO_MMIO_QUEUE_NOTIFY as u64),
            len: QUEUE_NOTIFY_LEN,
            reserved: 0,
            data: self.vq.len() as u64,
        }
    }

    /// Tells whether no virtqueue of the device is woken through the
    /// eventfd `kick` yet.
    pub fn takes_kick(&self, kick: u32) -> (r: bool)
        ensures
            r == kick_is_new(self@, kick),
    {
        let mut i: usize = 0;
        while i < self.vq.len()
            invariant
                i <= self.vq.len(),
                forall|j: int| 0 <= j < i ==> (#[trigger] self@.vq[j]).kick != kick,
            decreases self.vq.len() - i,
        {
            if self.vq[i].kick == kick {
                assert(self@.vq[i as int].kick == kick);
                return false;
            }
            i = i + 1;
        }
        true
    }

    /// Adds the next virtqueue, once its route is installed: it is woken
    /// through an eventfd of its own, takes at most `size_max` entries, is
    /// not ready, and has every register at zero.
    pub fn push_queue(&mut self, size_max: u16, kick: u32)
        requires
            old(self).wf(),
            old(self)@.vq.len() < old(self)@.queues_count,
            kick_is_new(old(self)@, kick),
        ensures
            final(self).wf(),
            final(self)@ == (MmioModel {
                vq: old(self)@.vq.push(
                    VirtQueue {
                        ready: 0,
                        size: 0,
                        size_max: size_max as u32,
                        desc_lo: 0,
                        desc_hi: 0,
                        avail_lo: 0,
                        avail_hi: 0,
                        used_lo: 0,
                        used_hi: 0,
                        kick,
                    },
                ),
                ..old(self)@
            }),
    {
        self.vq.push(
            VirtQueue {
                ready: 0,
                size: 0,
                size_max: size_max as u32,
                desc_lo: 0,
                desc_hi: 0,
                avail_lo: 0,
                avail_hi: 0,
                used_lo: 0,
                used_hi: 0,
                kick,
            },
        );
        assert forall|i: int, j: int| 0 <= i < j < final(self)@.vq.len() implies (
        #[trigger] final(self)@.vq[i]).kick != (#[trigger] final(self)@.vq[j]).kick by {
            if j < old(self)@.vq.len() {
                assert(old(self)@.vq[i].kick != old(self)@.vq[j].kick);
            } else {
                assert(old(self)@.vq[i].kick != kick);
            }
        }
    }

    /// The mapping of the guest's memory that the engine needs: see
    /// `guest_ram`.
    pub fn ram_mapping(ram_addr: u64, ram_size: u64) -> (r: RamRegion)
        ensures
            r == guest_ram(ram_addr, ram_size),
    {
        RamRegion { guest_base: 0, file_offset: ram_addr, len: ram_size }
    }

    /// Records the attempt to map a region of guest memory. A mapping that
    /// succeeded joins the guest memory of the device; one that failed
    /// changes nothing and is reported as `MmapGuestMemoryFailed`.
    pub fn map_region(&mut self, region: RamRegion, mapped: bool) -> (r: Result<(), Error>)
        requires
            old(self).wf(),
        ensures
            final(self).wf(),
            mapped ==> r is Ok && final(self)@ == (MmioModel {
                regions: old(self)@.regions.push(region),
                ..old(self)@
            }),
            !mapped ==> r == Err::<(), Error>(Error::MmapGuestMemoryFailed) && final(self)@ == old(
                self,
            )@,
    {
        if mapped {
            self.regions.push(region);
            Ok(())
        } else {
            Err(Error::MmapGuestMemoryFailed)
        }
    }

    /// The requests that remove the routes of all virtqueues, in the order
    /// of their indices: what is owed to the kernel when the engine goes.
    pub fn release_routes(&self) -> (r: Vec<BaoIoEventFd>)
        requires
            self.wf(),
        ensures
            r@ == kick_removals(self@),
    {
        let mut out: Vec<BaoIoEventFd> = Vec::new();
        let mut k: usize = 0;
        while k < self.vq.len()
            invariant
                self.wf(),
                k <= self.vq.len(),
                out@ == Seq::new(
                    k as nat,
                    |j: int| removal_of(kick_route(self@.addr, j as nat, self@.vq[j].kick)),
                ),
            decreases self.vq.len() - k,
        {
            out.push(
                BaoIoEventFd {
                    fd: self.vq[k].kick,
                    flags: BAO_IOEVENTFD_FLAG_DEASSIGN,
                    addr: self.addr + (VIRTIO_MMIO_QUEUE_NOTIFY as u64),
                    len: QUEUE_NOTIFY_LEN,
                    reserved: 0,
                    data: k as u64,
                },
            );
            k = k + 1;
        }
        out
    }

    /// A load in the configuration space: the backend is to be read.
    fn config_read(&self, req: &BaoIoRequest, offset: u64) -> (r: MmioAction)
        ensures
            r@ == (ActionModel::ReadConfig { offset, width: req.access_width }),
    {
        MmioAction::ReadConfig { offset, width: req.access_width }
    }

    /// A store in the configuration space: the backend is to be written.
    fn config_write(&self, req: &BaoIoRequest, offset: u64) -> (r: MmioAction)
        ensures
            r@ == (ActionModel::WriteConfig { offset, value: req.value, width: req.access_width }),
    {
        MmioAction::WriteConfig { offset, value: req.value, width: req.access_width }
    }

    /// Stores in the request what the backend's configuration space
    /// returned for a `ReadConfig`: the bytes read, as the low bytes of
    /// `data`, with zeros above them.
    pub fn config_value(req: &mut BaoIoRequest, data: u64)
        ensures
            *final(req) == (BaoIoRequest { value: data, ..*old(req) }),
    {
        req.value = data;
    }

    /// The registers of the selected virtqueue.
    fn selected_queue(&self) -> (r: VirtQueue)
        requires
            self@.queue_sel < self@.vq.len(),
        ensures
            r == selected(self@),
    {
        self.vq[self.queue_sel as usize]
    }

    /// Replaces the registers of the selected virtqueue.
    fn set_selected(&mut self, q: VirtQueue)
        requires
            old(self).wf(),
            old(self)@.queue_sel < old(self)@.vq.len(),
            q.kick == selected(old(self)@).kick,
        ensures
            final(self).wf(),
            final(self)@ == with_selected(old(self)@, q),
    {
        let i = self.queue_sel as usize;
        self.vq.set(i, q);
        assert forall|a: int, b: int| 0 <= a < b < final(self)@.vq.len() implies (
        #[trigger] final(self)@.vq[a]).kick != (#[trigger] final(self)@.vq[b]).kick by {
            assert(old(self)@.vq[a].kick != old(self)@.vq[b].kick);
        }
    }

    /// Serves a load from a register.
    fn io_read(&self, req: &mut BaoIoRequest, backend: &BackendInfo, offset: u64) -> (r: Result<
        (),
        Error,
    >)
        requires
            self.wf(),
            offset < VHOST_USER_CONFIG_OFFSET,
            reads_queue(offset) ==> self@.queue_sel < self@.vq.len(),
        ensures
            match read_register(self@, *backend, offset) {
                Ok(word) => r is Ok && *final(req) == (BaoIoRequest {
                    value: word as u64,
                    ..*old(req)
                }),
                Err(e) => r == Err::<(), Error>(e) && *final(req) == *old(req),
            },
    {
        let reg: u32 = offset as u32;
        let word: u32 = if reg == VIRTIO_MMIO_MAGIC_VALUE {
            MMIO_MAGIC
        } else if reg == VIRTIO_MMIO_VERSION {
            MMIO_VERSION
        } else if reg == VIRTIO_MMIO_DEVICE_ID {
            backend.device_type
        } else if reg == VIRTIO_MMIO_VENDOR_ID {
            MMIO_VENDOR_ID
        } else if reg == VIRTIO_MMIO_STATUS {
            self.status
        } else if reg == VIRTIO_MMIO_INTERRUPT_STATUS {
            self.interrupt_state | VIRTIO_MMIO_INT_VRING
        } else if reg == VIRTIO_MMIO_QUEUE_NUM_MAX {
            self.selected_queue().size_max
        } else if reg == VIRTIO_MMIO_DEVICE_FEATURES {
            if self.device_features_sel > 1 {
                return Err(Error::InvalidFeatureSel(self.device_features_sel));
            }
            device_features_window(backend.device_features, self.device_features_sel)
        } else if reg == VIRTIO_MMIO_QUEUE_READY {
            self.selected_queue().ready
        } else if reg == VIRTIO_MMIO_QUEUE_DESC_LOW {
            self.selected_queue().desc_lo
        } else if reg == VIRTIO_MMIO_QUEUE_DESC_HIGH {
            self.selected_queue().desc_hi
        } else if reg == VIRTIO_MMIO_QUEUE_USED_LOW {
            self.selected_queue().used_lo
        } else if reg == VIRTIO_MMIO_QUEUE_USED_HIGH {
            self.selected_queue().used_hi
        } else if reg == VIRTIO_MMIO_QUEUE_AVAIL_LOW {
            self.selected_queue().avail_lo
        } else if reg == VIRTIO_MMIO_QUEUE_AVAIL_HIGH {
            self.selected_queue().avail_hi
        } else if reg == VIRTIO_MMIO_CONFIG_GENERATION {
            0
        } else {
            return Err(Error::InvalidMmioAddr("read", offset));
        };
        req.value = word as u64;
        Ok(())
    }

    /// Finalises the selected virtqueue: builds its queue object from the
    /// size and the ring addresses that the driver wrote, marks it ready
    /// and appends it to the pending queues.
    fn init_vq(&mut self)
        requires
            old(self).wf(),
            old(self)@.queue_sel < old(self)@.vq.len(),
            crate::vring::queue_size_valid(low_half(selected(old(self)@).size)),
        ensures
            final(self)@ == (MmioModel {
                pending: old(self)@.pending.push(finalised(old(self)@)),
                ..with_selected(old(self)@, VirtQueue { ready: 1, ..selected(old(self)@) })
            }),
            final(self)@.pending.len() <= final(self)@.queues_count,
    {
        let i = self.queue_sel as usize;
        let mut vq = self.vq[i];
        let desc = address_of(vq.desc_lo, vq.desc_hi);
        let avail = address_of(vq.avail_lo, vq.avail_hi);
        let used = address_of(vq.used_lo, vq.used_hi);
        let queue = configured_queue(half_of(vq.size), desc, avail, used, 0);
        vq.ready = 1;
        self.vq.set(i, vq);
        self.queues.push((i, queue, vq.kick));
        assert(final(self)@.pending =~= old(self)@.pending.push(finalised(old(self)@)));
    }

    /// Drops the pending queues.
    fn destroy_vq(&mut self)
        requires
            old(self).wf(),
        ensures
            final(self).wf(),
            final(self)@ == (MmioModel { pending: Seq::empty(), ..old(self)@ }),
    {
        self.queues = Vec::new();
        assert(final(self)@.pending =~= Seq::empty());
    }

    /// Takes the guest memory out of the engine.
    fn mem(&mut self) -> (r: Vec<RamRegion>)
        ensures
            r@ == old(self)@.regions,
            final(self)@ == (MmioModel { regions: Seq::empty(), ..old(self)@ }),
    {
        let mut out: Vec<RamRegion> = Vec::new();
        std::mem::swap(&mut out, &mut self.regions);
        assert(final(self)@.regions =~= Seq::empty());
        out
    }

    /// Hands the guest memory and the pending queues over for the
    /// activation of the backend.
    fn activate_device(&mut self) -> (r: MmioAction)
        ensures
            r@ == (ActionModel::Activate {
                regions: old(self)@.regions,
                queues: old(self)@.pending,
            }),
            final(self)@ == (MmioModel {
                pending: Seq::empty(),
                regions: Seq::empty(),
                ..old(self)@
            }),
    {
        let regions = self.mem();
        let mut queues: Vec<(usize, Queue, u32)> = Vec::new();
        std::mem::swap(&mut queues, &mut self.queues);
        assert(final(self)@.pending =~= Seq::empty());
        MmioAction::Activate { regions, queues }
    }

    /// Serves a store to the driver features register.
    fn driver_features_write(&mut self, word: u32) -> (r: Result<MmioAction, Error>)
        requires
            old(self).wf(),
        ensures
            final(self).wf(),
            final(self)@ == write_driver_features(old(self)@, word).0,
            outcome_view(r) == write_driver_features(old(self)@, word).1,
    {
        let bits: u64 = if self.driver_features_sel == 0 {
            word as u64
        } else if self.driver_features_sel == 1 {
            (word as u64) << 32
        } else {
            0
        };
        self.driver_features = self.driver_features | bits;
        if self.driver_features_sel == 1 {
            if self.driver_features & FEATURE_VERSION_1 == 0 {
                return Err(Error::MmioLegacyNotSupported);
            }
            if self.driver_features & FEATURE_IOMMU_PLATFORM == 0 {
                return Err(Error::IommuPlatformNotSupported);
            }
            Ok(MmioAction::Done)
        } else if self.driver_features_sel == 0 {
            Ok(MmioAction::NegotiateFeatures { features: self.driver_features })
        } else {
            Ok(MmioAction::Done)
        }
    }

    /// Serves a store to a register.
    fn io_write(&mut self, value: u64, offset: u64) -> (r: Result<MmioAction, Error>)
        requires
            old(self).wf(),
            offset < VHOST_USER_CONFIG_OFFSET,
            writes_queue(offset, value) ==> old(self)@.queue_sel < old(self)@.vq.len(),
            offset == VIRTIO_MMIO_QUEUE_READY && value == 1 ==> {
                &&& crate::vring::queue_size_valid(low_half(selected(old(self)@).size))
                &&& old(self)@.pending.len() + 1 == old(self)@.queues_count ==> old(
                    self,
                )@.regions.len() > 0
            },
        ensures
            final(self).wf(),
            final(self)@ == write_register(old(self)@, offset, value).0,
            outcome_view(r) == write_register(old(self)@, offset, value).1,
    {
        let word = word_of(value);
        let reg: u32 = offset as u32;
        if reg == VIRTIO_MMIO_DEVICE_FEATURES_SEL {
            self.device_features_sel = word;
        } else if reg == VIRTIO_MMIO_DRIVER_FEATURES_SEL {
            self.driver_features_sel = word;
        } else if reg == VIRTIO_MMIO_QUEUE_SEL {
            self.queue_sel = word;
        } else if reg == VIRTIO_MMIO_STATUS {
            self.status = word;
        } else if reg == VIRTIO_MMIO_QUEUE_NUM {
            let vq = self.selected_queue();
            self.set_selected(VirtQueue { size: word, ..vq });
        } else if reg == VIRTIO_MMIO_QUEUE_DESC_LOW {
            let vq = self.selected_queue();
            self.set_selected(VirtQueue { desc_lo: word, ..vq });
        } else if reg == VIRTIO_MMIO_QUEUE_DESC_HIGH {
            let vq = self.selected_queue();
            self.set_selected(VirtQueue { desc_hi: word, ..vq });
        } else if reg == VIRTIO_MMIO_QUEUE_USED_LOW {
            let vq = self.selected_queue();
            self.set_selected(VirtQueue { used_lo: word, ..vq });
        } else if reg == VIRTIO_MMIO_QUEUE_USED_HIGH {
            let vq = self.selected_queue();
            self.set_selected(VirtQueue { used_hi: word, ..vq });
        } else if reg == VIRTIO_MMIO_QUEUE_AVAIL_LOW {
            let vq = self.selected_queue();
            self.set_selected(VirtQueue { avail_lo: word, ..vq });
        } else if reg == VIRTIO_MMIO_QUEUE_AVAIL_HIGH {
            let vq = self.selected_queue();
            self.set_selected(VirtQueue { avail_hi: word, ..vq });
        } else if reg == VIRTIO_MMIO_INTERRUPT_ACK {
            self.interrupt_state = self.interrupt_state & !word;
        } else if reg == VIRTIO_MMIO_DRIVER_FEATURES {
            return self.driver_features_write(word);
        } else if reg == VIRTIO_MMIO_QUEUE_READY {
            if value == 1 {
                self.init_vq();
                if self.queues.len() == self.queues_count {
                    return Ok(self.activate_device());
                }
            } else {
                self.destroy_vq();
            }
        } else if reg == VIRTIO_MMIO_QUEUE_NOTIFY {
        } else {
            return Err(Error::InvalidMmioAddr("write", offset));
        }
        Ok(MmioAction::Done)
    }

    /// Tells whether the engine serves the access in its present state:
    /// see `admits`.
    pub fn serves(&self, req: &BaoIoRequest) -> (r: bool)
        requires
            self.wf(),
        ensures
            r == admits(self@, *req),
    {
        if req.op != BAO_IO_READ && req.op != BAO_IO_WRITE {
            true
        } else if req.reg_off >= VHOST_USER_CONFIG_OFFSET {
            req.access_width <= CONFIG_ACCESS_MAX
        } else {
            let reg: u32 = req.reg_off as u32;
            let halves = reg == VIRTIO_MMIO_QUEUE_DESC_LOW || reg == VIRTIO_MMIO_QUEUE_DESC_HIGH
                || reg == VIRTIO_MMIO_QUEUE_AVAIL_LOW || reg == VIRTIO_MMIO_QUEUE_AVAIL_HIGH
                || reg == VIRTIO_MMIO_QUEUE_USED_LOW || reg == VIRTIO_MMIO_QUEUE_USED_HIGH;
            let selected = (self.queue_sel as usize) < self.vq.len();
            if req.op == BAO_IO_READ {
                let queue = halves || reg == VIRTIO_MMIO_QUEUE_NUM_MAX || reg
                    == VIRTIO_MMIO_QUEUE_READY;
                !queue || selected
            } else if reg == VIRTIO_MMIO_QUEUE_READY && req.value == 1 {
                selected && is_queue_size_valid(half_of(self.selected_queue().size)) && (
                self.queues.len() + 1 != self.queues_count || self.regions.len() > 0)
            } else {
                let queue = halves || reg == VIRTIO_MMIO_QUEUE_NUM;
                !queue || selected
            }
        }
    }

    /// Serves one trapped access: decodes it against the register file,
    /// fills the request's value for a load, and hands back what is left
    /// to do with the backend, as `step` says.
    pub fn io_event(&mut self, req: &mut BaoIoRequest, backend: &BackendInfo) -> (r: Result<
        MmioAction,
        Error,
    >)
        requires
            old(self).wf(),
            admits(old(self)@, *old(req)),
        ensures
            final(self).wf(),
            final(self)@ == step(old(self)@, *backend, *old(req)).state,
            *final(req) == step(old(self)@, *backend, *old(req)).request,
            outcome_view(r) == step(old(self)@, *backend, *old(req)).outcome,
    {
        let offset = req.reg_off;
        if offset >= VHOST_USER_CONFIG_OFFSET {
            let offset = offset - VHOST_USER_CONFIG_OFFSET;
            if req.op == BAO_IO_READ {
                Ok(self.config_read(req, offset))
            } else if req.op == BAO_IO_WRITE {
                Ok(self.config_write(req, offset))
            } else {
                Err(Error::InvalidMmioDir(byte_of(req.op)))
            }
        } else if req.op == BAO_IO_READ {
            match self.io_read(req, backend, offset) {
                Ok(_) => Ok(MmioAction::Done),
                Err(e) => Err(e),
            }
        } else if req.op == BAO_IO_WRITE {
            self.io_write(req.value, offset)
        } else {
            Err(Error::InvalidMmioDir(byte_of(req.op)))
        }
    }

    /// As `io_event`, for any access: `None`, with nothing changed, exactly
    /// when the engine does not serve the access in its present state.
    pub fn try_io_event(&mut self, req: &mut BaoIoRequest, backend: &BackendInfo) -> (r: Option<
        Result<MmioAction, Error>,
    >)
        requires
            old(self).wf(),
        ensures
            final(self).wf(),
            r is Some <==> admits(old(self)@, *old(req)),
            r is None ==> final(self)@ == old(self)@ && *final(req) == *old(req),
            r is Some ==> {
                &&& final(self)@ == step(old(self)@, *backend, *old(req)).state
                &&& *final(req) == step(old(self)@, *backend, *old(req)).request
                &&& outcome_view(r->0) == step(old(self)@, *backend, *old(req)).outcome
            },
    {
        if self.serves(req) {
            Some(self.io_event(req, backend))
        } else {
            None
        }
    }
}

} // verus!
