//! Numbers of the hypervisor ABI and of the virtio-MMIO register map.

use vstd::prelude::*;

verus! {

/// Operation of an I/O request: the guest stored a value.
pub const BAO_IO_WRITE: u32 = 0;

/// Operation of an I/O request: the guest loaded a value.
pub const BAO_IO_READ: u32 = 1;

/// Operation of an I/O request: user space asks for the next request.
pub const BAO_IO_ASK: u32 = 2;

/// ioeventfd flag: route only stores whose value equals `data`.
pub const BAO_IOEVENTFD_FLAG_DATAMATCH: u32 = 2;

/// ioeventfd flag: remove a route installed earlier.
pub const BAO_IOEVENTFD_FLAG_DEASSIGN: u32 = 4;

/// irqfd flag: install the route.
pub const BAO_IRQFD_FLAG_ASSIGN: u32 = 0;

/// irqfd flag: remove the route.
pub const BAO_IRQFD_FLAG_DEASSIGN: u32 = 1;

/// Return status of a request that was served.
pub const BAO_IO_OK: i32 = 0;

/// Return status of a request that failed: the guest sees a bus fault.
pub const BAO_IO_FAULT: i32 = -1;

/// First offset of the device configuration space inside a device's window.
pub const VHOST_USER_CONFIG_OFFSET: u64 = 0x100;

/// Widest access that the configuration space takes, in bytes.
pub const CONFIG_ACCESS_MAX: u32 = 8;

pub const VIRTIO_MMIO_MAGIC_VALUE: u32 = 0x000;

pub const VIRTIO_MMIO_VERSION: u32 = 0x004;

pub const VIRTIO_MMIO_DEVICE_ID: u32 = 0x008;

pub const VIRTIO_MMIO_VENDOR_ID: u32 = 0x00c;

pub const VIRTIO_MMIO_DEVICE_FEATURES: u32 = 0x010;

pub const VIRTIO_MMIO_DEVICE_FEATURES_SEL: u32 = 0x014;

pub const VIRTIO_MMIO_DRIVER_FEATURES: u32 = 0x020;

pub const VIRTIO_MMIO_DRIVER_FEATURES_SEL: u32 = 0x024;

pub const VIRTIO_MMIO_QUEUE_SEL: u32 = 0x030;

pub const VIRTIO_MMIO_QUEUE_NUM_MAX: u32 = 0x034;

pub const VIRTIO_MMIO_QUEUE_NUM: u32 = 0x038;

pub const VIRTIO_MMIO_QUEUE_READY: u32 = 0x044;

pub const VIRTIO_MMIO_QUEUE_NOTIFY: u32 = 0x050;

pub const VIRTIO_MMIO_INTERRUPT_STATUS: u32 = 0x060;

pub const VIRTIO_MMIO_INTERRUPT_ACK: u32 = 0x064;

pub const VIRTIO_MMIO_STATUS: u32 = 0x070;

pub const VIRTIO_MMIO_QUEUE_DESC_LOW: u32 = 0x080;

pub const VIRTIO_MMIO_QUEUE_DESC_HIGH: u32 = 0x084;

pub const VIRTIO_MMIO_QUEUE_AVAIL_LOW: u32 = 0x090;

pub const VIRTIO_MMIO_QUEUE_AVAIL_HIGH: u32 = 0x094;

pub const VIRTIO_MMIO_QUEUE_USED_LOW: u32 = 0x0a0;

pub const VIRTIO_MMIO_QUEUE_USED_HIGH: u32 = 0x0a4;

pub const VIRTIO_MMIO_CONFIG_GENERATION: u32 = 0x0fc;

/// Bit of the interrupt status register: a used ring was updated.
pub const VIRTIO_MMIO_INT_VRING: u32 = 1;

/// Feature bit: the device follows the modern (version 1) layout.
pub const VIRTIO_F_VERSION_1: u32 = 32;

/// Feature bit: the device reaches memory through the platform's IOMMU.
pub const VIRTIO_F_IOMMU_PLATFORM: u32 = 33;

/// The magic value register, the bytes `virt` read as a little-endian word.
pub const MMIO_MAGIC: u32 = 0x7472_6976;

/// The version register: the modern register layout.
pub const MMIO_VERSION: u32 = 2;

/// The vendor register.
pub const MMIO_VENDOR_ID: u32 = 0x4d56_4b4c;

/// Length in bytes of the store that a queue notification is.
pub const QUEUE_NOTIFY_LEN: u32 = 4;

/// Largest size of a virtqueue.
pub const MAX_QUEUE_SIZE: u16 = 32768;

/// The file that guest memory is mapped from.
pub const GUEST_RAM_PATH: &'static str = "/dev/mem";

} // verus!
