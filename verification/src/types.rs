//! Records exchanged with the hypervisor's control device.

use vstd::prelude::*;
use crate::defs::{BAO_IO_ASK, BAO_IO_FAULT, BAO_IO_OK};
use crate::error::Error;

verus! {

/// One trapped guest access, as the hypervisor hands it to user space and
/// takes it back once it is served.
#[derive(Clone, Copy, Debug, PartialEq, Eq)]
pub struct BaoIoRequest {
    /// Selector of the virtio device.
    pub virtio_id: u32,
    /// Offset of the register inside the device's window.
    pub reg_off: u64,
    /// Guest address that faulted.
    pub addr: u64,
    /// `BAO_IO_READ`, `BAO_IO_WRITE` or `BAO_IO_ASK`.
    pub op: u32,
    /// Value stored by the guest, or value that the guest's load returns.
    pub value: u64,
    /// Width of the access in bytes.
    pub access_width: u32,
    /// Zero when the access was served, non-zero for a bus fault.
    pub ret: i32,
}

/// A route from a guest store to an eventfd, to install or to remove.
#[derive(Clone, Copy, Debug, PartialEq, Eq)]
pub struct BaoIoEventFd {
    pub fd: u32,
    pub flags: u32,
    pub addr: u64,
    pub len: u32,
    pub reserved: u32,
    pub data: u64,
}

/// A route from an eventfd to the device's interrupt line, to install or
/// to remove.
#[derive(Clone, Copy, Debug, PartialEq, Eq)]
pub struct BaoIrqFd {
    pub fd: i32,
    pub flags: u32,
}

impl BaoIoRequest {
    /// The record that user space hands to the hypervisor to ask for the
    /// next trapped access.
    pub open spec fn spec_ask() -> BaoIoRequest {
        BaoIoRequest {
            virtio_id: 0,
            reg_off: 0,
            addr: 0,
            op: BAO_IO_ASK,
            value: 0,
            access_width: 0,
            ret: 0,
        }
    }

    /// The blank request of `spec_ask`.
    pub fn ask() -> (r: BaoIoRequest)
        ensures
            r == Self::spec_ask(),
    {
        BaoIoRequest {
            virtio_id: 0,
            reg_off: 0,
            addr: 0,
            op: BAO_IO_ASK,
            value: 0,
            access_width: 0,
            ret: 0,
        }
    }

    /// Records how the access ended before the request goes back to the
    /// hypervisor: status zero when it was served, a bus fault otherwise.
    /// Nothing else in the request changes.
    pub fn complete(&mut self, result: &Result<(), Error>)
        ensures
            *final(self) == (BaoIoRequest {
                ret: if result is Ok { BAO_IO_OK } else { BAO_IO_FAULT },
                ..*old(self)
            }),
    {
        match result {
            Ok(_) => {
                self.ret = BAO_IO_OK;
            },
            Err(_) => {
                self.ret = BAO_IO_FAULT;
            },
        }
    }
}

} // verus!
