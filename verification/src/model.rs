//! The virtio-MMIO register file as a mathematical state machine.
//!
//! `step` says, for a state of the register file and one trapped access,
//! what the state is afterwards, what the request holds when it goes back
//! to the hypervisor, and what the backend has to be asked to do.

use vstd::prelude::*;
use crate::defs::{
    BAO_IO_READ, BAO_IO_WRITE, CONFIG_ACCESS_MAX, MMIO_MAGIC, MMIO_VENDOR_ID, MMIO_VERSION,
    VHOST_USER_CONFIG_OFFSET, VIRTIO_MMIO_CONFIG_GENERATION, VIRTIO_MMIO_DEVICE_FEATURES,
    VIRTIO_MMIO_DEVICE_FEATURES_SEL, VIRTIO_MMIO_DEVICE_ID, VIRTIO_MMIO_DRIVER_FEATURES,
    VIRTIO_MMIO_DRIVER_FEATURES_SEL, VIRTIO_MMIO_INTERRUPT_ACK, VIRTIO_MMIO_INTERRUPT_STATUS,
    VIRTIO_MMIO_INT_VRING, VIRTIO_MMIO_MAGIC_VALUE, VIRTIO_MMIO_QUEUE_AVAIL_HIGH,
    VIRTIO_MMIO_QUEUE_AVAIL_LOW, VIRTIO_MMIO_QUEUE_DESC_HIGH, VIRTIO_MMIO_QUEUE_DESC_LOW,
    VIRTIO_MMIO_QUEUE_NOTIFY, VIRTIO_MMIO_QUEUE_NUM, VIRTIO_MMIO_QUEUE_NUM_MAX,
    VIRTIO_MMIO_QUEUE_READY, VIRTIO_MMIO_QUEUE_SEL, VIRTIO_MMIO_QUEUE_USED_HIGH,
    VIRTIO_MMIO_QUEUE_USED_LOW, VIRTIO_MMIO_STATUS, VIRTIO_MMIO_VENDOR_ID, VIRTIO_MMIO_VERSION,
};
use crate::error::Error;
use crate::types::BaoIoRequest;
use crate::vring::{configured_state, queue_size_valid, ring_address, VringState};

verus! {

/// The feature bit `VIRTIO_F_VERSION_1` as a mask of the 64-bit feature space.
pub const FEATURE_VERSION_1: u64 = 0x1_0000_0000;

/// The feature bit `VIRTIO_F_IOMMU_PLATFORM` as a mask of the 64-bit feature space.
pub const FEATURE_IOMMU_PLATFORM: u64 = 0x2_0000_0000;

/// The registers of one virtqueue, and the eventfd that its notification
/// wakes.
#[derive(Clone, Copy, Debug, PartialEq, Eq)]
pub struct VirtQueue {
    pub ready: u32,
    pub size: u32,
    pub size_max: u32,
    pub desc_lo: u32,
    pub desc_hi: u32,
    pub avail_lo: u32,
    pub avail_hi: u32,
    pub used_lo: u32,
    pub used_hi: u32,
    pub kick: u32,
}

/// A piece of guest memory to map: `len` bytes of the memory file from
/// `file_offset` on, seen by the backend at guest address `guest_base`.
#[derive(Clone, Copy, Debug, PartialEq, Eq)]
pub struct RamRegion {
    pub guest_base: u64,
    pub file_offset: u64,
    pub len: u64,
}

/// What the backend reports of itself: its device class and the features
/// it offers.
#[derive(Clone, Copy, Debug, PartialEq, Eq)]
pub struct BackendInfo {
    pub device_type: u32,
    pub device_features: u64,
}

/// A virtqueue that the driver declared ready and that waits for the
/// activation of the device: its index, the state of its queue object and
/// its kick eventfd.
#[derive(Clone, Copy, Debug, PartialEq, Eq)]
pub struct PendingQueue {
    pub index: usize,
    pub state: VringState,
    pub kick: u32,
}

/// The state of the register file.
#[verifier::ext_equal]
pub struct MmioModel {
    pub addr: u64,
    pub status: u32,
    pub queue_sel: u32,
    pub device_features_sel: u32,
    pub driver_features: u64,
    pub driver_features_sel: u32,
    pub interrupt_state: u32,
    pub queues_count: nat,
    pub vq: Seq<VirtQueue>,
    pub pending: Seq<PendingQueue>,
    pub regions: Seq<RamRegion>,
}

/// What is left to do once an access has been decoded.
#[verifier::ext_equal]
pub enum ActionModel {
    /// Nothing: the request can go back to the hypervisor.
    Done,
    /// Read `width` bytes of the backend's configuration space at `offset`.
    ReadConfig { offset: u64, width: u32 },
    /// Write the first `width` bytes of `value` to the backend's
    /// configuration space at `offset`.
    WriteConfig { offset: u64, value: u64, width: u32 },
    /// Negotiate these driver features with the backend, with no protocol
    /// feature.
    NegotiateFeatures { features: u64 },
    /// Activate the backend on this guest memory with these queues.
    Activate { regions: Seq<RamRegion>, queues: Seq<PendingQueue> },
}

/// The low 32 bits of a stored value: what a register takes of it.
pub open spec fn low_word(value: u64) -> u32 {
    (value & 0xffff_ffff) as u32
}

/// The low 16 bits of a queue size register: the size of the queue object.
pub open spec fn low_half(value: u32) -> u16 {
    (value & 0xffff) as u16
}

/// The low 8 bits of an operation code, as the error reports it.
pub open spec fn low_byte(value: u32) -> u8 {
    (value & 0xff) as u8
}

/// The features the device offers to the driver: those of the backend,
/// and the two that this frontend always asks for.
pub open spec fn offered_features(backend_features: u64) -> u64 {
    backend_features | FEATURE_VERSION_1 | FEATURE_IOMMU_PLATFORM
}

/// The 32-bit window number `sel` (0 or 1) of a 64-bit feature set.
pub open spec fn feature_window(features: u64, sel: u32) -> u32 {
    if sel == 0 {
        (features & 0xffff_ffff) as u32
    } else {
        (features >> 32) as u32
    }
}

/// A 32-bit word placed in window `sel` of the 64-bit feature space.
/// Windows above 1 lie outside of it.
pub open spec fn feature_bits(word: u32, sel: u32) -> u64 {
    if sel == 0 {
        word as u64
    } else if sel == 1 {
        (word as u64) << 32
    } else {
        0
    }
}

/// The selected virtqueue.
pub open spec fn selected(m: MmioModel) -> VirtQueue {
    m.vq[m.queue_sel as int]
}

/// The state with the selected virtqueue replaced.
pub open spec fn with_selected(m: MmioModel, q: VirtQueue) -> MmioModel {
    MmioModel { vq: m.vq.update(m.queue_sel as int, q), ..m }
}

/// What a load from the register at `offset` returns.
pub open spec fn read_register(m: MmioModel, backend: BackendInfo, offset: u64) -> Result<
    u32,
    Error,
> {
    let vq = selected(m);
    if offset == VIRTIO_MMIO_MAGIC_VALUE {
        Ok(MMIO_MAGIC)
    } else if offset == VIRTIO_MMIO_VERSION {
        Ok(MMIO_VERSION)
    } else if offset == VIRTIO_MMIO_DEVICE_ID {
        Ok(backend.device_type)
    } else if offset == VIRTIO_MMIO_VENDOR_ID {
        Ok(MMIO_VENDOR_ID)
    } else if offset == VIRTIO_MMIO_STATUS {
        Ok(m.status)
    } else if offset == VIRTIO_MMIO_INTERRUPT_STATUS {
        Ok(m.interrupt_state | VIRTIO_MMIO_INT_VRING)
    } else if offset == VIRTIO_MMIO_QUEUE_NUM_MAX {
        Ok(vq.size_max)
    } else if offset == VIRTIO_MMIO_DEVICE_FEATURES {
        if m.device_features_sel > 1 {
            Err(Error::InvalidFeatureSel(m.device_features_sel))
        } else {
            Ok(feature_window(offered_features(backend.device_features), m.device_features_sel))
        }
    } else if offset == VIRTIO_MMIO_QUEUE_READY {
        Ok(vq.ready)
    } else if offset == VIRTIO_MMIO_QUEUE_DESC_LOW {
        Ok(vq.desc_lo)
    } else if offset == VIRTIO_MMIO_QUEUE_DESC_HIGH {
        Ok(vq.desc_hi)
    } else if offset == VIRTIO_MMIO_QUEUE_USED_LOW {
        Ok(vq.used_lo)
    } else if offset == VIRTIO_MMIO_QUEUE_USED_HIGH {
        Ok(vq.used_hi)
    } else if offset == VIRTIO_MMIO_QUEUE_AVAIL_LOW {
        Ok(vq.avail_lo)
    } else if offset == VIRTIO_MMIO_QUEUE_AVAIL_HIGH {
        Ok(vq.avail_hi)
    } else if offset == VIRTIO_MMIO_CONFIG_GENERATION {
        Ok(0)
    } else {
        Err(Error::InvalidMmioAddr("read", offset))
    }
}

/// A store to the driver features register: the word is ORed into the
/// selected window. The upper window must bring the two features this
/// frontend needs; the lower window, which the driver writes last, starts
/// the negotiation with the backend.
pub open spec fn write_driver_features(m: MmioModel, word: u32) -> (
    MmioModel,
    Result<ActionModel, Error>,
) {
    let features = m.driver_features | feature_bits(word, m.driver_features_sel);
    let after = MmioModel { driver_features: features, ..m };
    if m.driver_features_sel == 1 {
        if features & FEATURE_VERSION_1 == 0 {
            (after, Err(Error::MmioLegacyNotSupported))
        } else if features & FEATURE_IOMMU_PLATFORM == 0 {
            (after, Err(Error::IommuPlatformNotSupported))
        } else {
            (after, Ok(ActionModel::Done))
        }
    } else if m.driver_features_sel == 0 {
        (after, Ok(ActionModel::NegotiateFeatures { features }))
    } else {
        (after, Ok(ActionModel::Done))
    }
}

/// The queue that is handed to the backend for the selected virtqueue: it
/// has the size and the rings that the driver wrote, and its available
/// ring is read from its start.
pub open spec fn finalised(m: MmioModel) -> PendingQueue {
    let vq = selected(m);
    PendingQueue {
        index: m.queue_sel as usize,
        state: configured_state(
            low_half(vq.size),
            ring_address(vq.desc_lo, vq.desc_hi),
            ring_address(vq.avail_lo, vq.avail_hi),
            ring_address(vq.used_lo, vq.used_hi),
            0,
        ),
        kick: vq.kick,
    }
}

/// A store of 1 to the queue ready register: the selected queue is
/// finalised and joins the pending queues. When as many queues are pending
/// as the device has, the backend is activated with all of them and with
/// the guest memory, which both leave the register file.
pub open spec fn ready_queue(m: MmioModel) -> (MmioModel, Result<ActionModel, Error>) {
    let marked = with_selected(m, VirtQueue { ready: 1, ..selected(m) });
    let pending = m.pending.push(finalised(m));
    if pending.len() == m.queues_count {
        (
            MmioModel { pending: Seq::empty(), regions: Seq::empty(), ..marked },
            Ok(ActionModel::Activate { regions: m.regions, queues: pending }),
        )
    } else {
        (MmioModel { pending, ..marked }, Ok(ActionModel::Done))
    }
}

/// What a store of `value` to the register at `offset` does.
pub open spec fn write_register(m: MmioModel, offset: u64, value: u64) -> (
    MmioModel,
    Result<ActionModel, Error>,
) {
    let word = low_word(value);
    let vq = selected(m);
    if offset == VIRTIO_MMIO_DEVICE_FEATURES_SEL {
        (MmioModel { device_features_sel: word, ..m }, Ok(ActionModel::Done))
    } else if offset == VIRTIO_MMIO_DRIVER_FEATURES_SEL {
        (MmioModel { driver_features_sel: word, ..m }, Ok(ActionModel::Done))
    } else if offset == VIRTIO_MMIO_QUEUE_SEL {
        (MmioModel { queue_sel: word, ..m }, Ok(ActionModel::Done))
    } else if offset == VIRTIO_MMIO_STATUS {
        (MmioModel { status: word, ..m }, Ok(ActionModel::Done))
    } else if offset == VIRTIO_MMIO_QUEUE_NUM {
        (with_selected(m, VirtQueue { size: word, ..vq }), Ok(ActionModel::Done))
    } else if offset == VIRTIO_MMIO_QUEUE_DESC_LOW {
        (with_selected(m, VirtQueue { desc_lo: word, ..vq }), Ok(ActionModel::Done))
    } else if offset == VIRTIO_MMIO_QUEUE_DESC_HIGH {
        (with_selected(m, VirtQueue { desc_hi: word, ..vq }), Ok(ActionModel::Done))
    } else if offset == VIRTIO_MMIO_QUEUE_USED_LOW {
        (with_selected(m, VirtQueue { used_lo: word, ..vq }), Ok(ActionModel::Done))
    } else if offset == VIRTIO_MMIO_QUEUE_USED_HIGH {
        (with_selected(m, VirtQueue { used_hi: word, ..vq }), Ok(ActionModel::Done))
    } else if offset == VIRTIO_MMIO_QUEUE_AVAIL_LOW {
        (with_selected(m, VirtQueue { avail_lo: word, ..vq }), Ok(ActionModel::Done))
    } else if offset == VIRTIO_MMIO_QUEUE_AVAIL_HIGH {
        (with_selected(m, VirtQueue { avail_hi: word, ..vq }), Ok(ActionModel::Done))
    } else if offset == VIRTIO_MMIO_INTERRUPT_ACK {
        (MmioModel { interrupt_state: m.interrupt_state & !word, ..m }, Ok(ActionModel::Done))
    } else if offset == VIRTIO_MMIO_DRIVER_FEATURES {
        write_driver_features(m, word)
    } else if offset == VIRTIO_MMIO_QUEUE_READY {
        if value == 1 {
            ready_queue(m)
        } else {
            (MmioModel { pending: Seq::empty(), ..m }, Ok(ActionModel::Done))
        }
    } else if offset == VIRTIO_MMIO_QUEUE_NOTIFY {
        (m, Ok(ActionModel::Done))
    } else {
        (m, Err(Error::InvalidMmioAddr("write", offset)))
    }
}

/// What the engine answers to one trapped access.
pub struct Step {
    /// The register file after the access.
    pub state: MmioModel,
    /// The request as it is after the access.
    pub request: BaoIoRequest,
    /// What is left to do, or why the access failed.
    pub outcome: Result<ActionModel, Error>,
}

/// Tells whether the access reaches the registers (rather than the
/// configuration space) as a load or a store.
pub open spec fn is_register_access(req: BaoIoRequest) -> bool {
    req.reg_off < VHOST_USER_CONFIG_OFFSET && (req.op == BAO_IO_READ || req.op == BAO_IO_WRITE)
}

/// Tells whether the access is the store that declares the selected queue
/// ready.
pub open spec fn is_ready_write(req: BaoIoRequest) -> bool {
    req.reg_off == VIRTIO_MMIO_QUEUE_READY && req.op == BAO_IO_WRITE && req.value == 1
}

/// Tells whether a load from the register at `offset` reads the selected
/// virtqueue.
pub open spec fn reads_queue(offset: u64) -> bool {
    ||| offset == VIRTIO_MMIO_QUEUE_NUM_MAX
    ||| offset == VIRTIO_MMIO_QUEUE_READY
    ||| offset == VIRTIO_MMIO_QUEUE_DESC_LOW
    ||| offset == VIRTIO_MMIO_QUEUE_DESC_HIGH
    ||| offset == VIRTIO_MMIO_QUEUE_AVAIL_LOW
    ||| offset == VIRTIO_MMIO_QUEUE_AVAIL_HIGH
    ||| offset == VIRTIO_MMIO_QUEUE_USED_LOW
    ||| offset == VIRTIO_MMIO_QUEUE_USED_HIGH
}

/// Tells whether a store of `value` to the register at `offset` changes
/// the selected virtqueue.
pub open spec fn writes_queue(offset: u64, value: u64) -> bool {
    ||| offset == VIRTIO_MMIO_QUEUE_NUM
    ||| offset == VIRTIO_MMIO_QUEUE_DESC_LOW
    ||| offset == VIRTIO_MMIO_QUEUE_DESC_HIGH
    ||| offset == VIRTIO_MMIO_QUEUE_AVAIL_LOW
    ||| offset == VIRTIO_MMIO_QUEUE_AVAIL_HIGH
    ||| offset == VIRTIO_MMIO_QUEUE_USED_LOW
    ||| offset == VIRTIO_MMIO_QUEUE_USED_HIGH
    ||| offset == VIRTIO_MMIO_QUEUE_READY && value == 1
}

/// The accesses that the engine serves in state `m`.
///
/// A load or store in the configuration space is at most
/// `CONFIG_ACCESS_MAX` bytes wide. A load or store of a register of the
/// selected virtqueue finds that queue among those of the device. The
/// store that declares a queue ready finds it with a size that a virtqueue
/// can have, and, when it completes the pending queues, finds guest memory
/// still there to hand to the backend: a device is activated once.
pub open spec fn admits(m: MmioModel, req: BaoIoRequest) -> bool {
    if req.op != BAO_IO_READ && req.op != BAO_IO_WRITE {
        true
    } else if req.reg_off >= VHOST_USER_CONFIG_OFFSET {
        req.access_width <= CONFIG_ACCESS_MAX
    } else if req.op == BAO_IO_READ {
        reads_queue(req.reg_off) ==> m.queue_sel < m.vq.len()
    } else {
        &&& writes_queue(req.reg_off, req.value) ==> m.queue_sel < m.vq.len()
        &&& is_ready_write(req) ==> {
            &&& queue_size_valid(low_half(selected(m).size))
            &&& m.pending.len() + 1 == m.queues_count ==> m.regions.len() > 0
        }
    }
}

/// One trapped access, decoded.
pub open spec fn step(m: MmioModel, backend: BackendInfo, req: BaoIoRequest) -> Step {
    if req.reg_off >= VHOST_USER_CONFIG_OFFSET {
        let offset = (req.reg_off - VHOST_USER_CONFIG_OFFSET) as u64;
        if req.op == BAO_IO_READ {
            Step {
                state: m,
                request: req,
                outcome: Ok(ActionModel::ReadConfig { offset, width: req.access_width }),
            }
        } else if req.op == BAO_IO_WRITE {
            Step {
                state: m,
                request: req,
                outcome: Ok(
                    ActionModel::WriteConfig { offset, value: req.value, width: req.access_width },
                ),
            }
        } else {
            Step { state: m, request: req, outcome: Err(Error::InvalidMmioDir(low_byte(req.op))) }
        }
    } else if req.op == BAO_IO_READ {
        match read_register(m, backend, req.reg_off) {
            Ok(word) => Step {
                state: m,
                request: BaoIoRequest { value: word as u64, ..req },
                outcome: Ok(ActionModel::Done),
            },
            Err(e) => Step { state: m, request: req, outcome: Err(e) },
        }
    } else if req.op == BAO_IO_WRITE {
        let (state, outcome) = write_register(m, req.reg_off, req.value);
        Step { state, request: req, outcome }
    } else {
        Step { state: m, request: req, outcome: Err(Error::InvalidMmioDir(low_byte(req.op))) }
    }
}

} // verus!
