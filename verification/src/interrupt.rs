//! The interrupt of a device: an eventfd that the kernel routes to the
//! device's interrupt line.

use vstd::prelude::*;
use crate::defs::{BAO_IRQFD_FLAG_ASSIGN, BAO_IRQFD_FLAG_DEASSIGN};
use crate::types::BaoIrqFd;

verus! {

/// The interrupt of a device: its interrupt line and its call eventfd.
#[derive(Clone, Copy, Debug, PartialEq, Eq)]
pub struct BaoInterrupt {
    pub irq: u64,
    pub call: i32,
}

/// The request that installs the route from `call` to the interrupt line.
pub open spec fn irq_route(call: i32) -> BaoIrqFd {
    BaoIrqFd { fd: call, flags: BAO_IRQFD_FLAG_ASSIGN }
}

/// The request that removes the route from `call` to the interrupt line.
pub open spec fn irq_removal(call: i32) -> BaoIrqFd {
    BaoIrqFd { fd: call, flags: BAO_IRQFD_FLAG_DEASSIGN }
}

impl BaoInterrupt {
    /// The interrupt of the device on line `irq` whose call eventfd is
    /// `call`, and the request that installs its route.
    pub fn new(irq: u64, call: i32) -> (r: (BaoInterrupt, BaoIrqFd))
        ensures
            r.0 == (BaoInterrupt { irq, call }),
            r.1 == irq_route(call),
    {
        (BaoInterrupt { irq, call }, BaoIrqFd { fd: call, flags: BAO_IRQFD_FLAG_ASSIGN })
    }

    /// The request that removes the interrupt's route.
    pub fn exit(&self) -> (r: BaoIrqFd)
        ensures
            r == irq_removal(self.call),
    {
        BaoIrqFd { fd: self.call, flags: BAO_IRQFD_FLAG_DEASSIGN }
    }

    /// Raising the interrupt from user space takes nothing: the kernel
    /// raises it when the call eventfd is signalled.
    pub fn trigger(&self) -> (r: Result<(), i32>)
        ensures
            r is Ok,
    {
        Ok(())
    }

    /// The eventfd that the backend signals to interrupt the guest: the
    /// call eventfd, of which the backend is given a duplicate.
    pub fn notifier(&self) -> (r: Option<i32>)
        ensures
            r == Some(self.call),
    {
        Some(self.call)
    }
}

} // verus!
