//! The device model: the typed face of the hypervisor's control device.
//!
//! Every verb of the control device is an ioctl. The device model says
//! on which descriptor a verb is issued and with which argument, and reads
//! the kernel's answer; the system call itself is made by the caller.

use vstd::prelude::*;
use crate::error::Error;
use crate::types::{BaoIoEventFd, BaoIoRequest, BaoIrqFd};

verus! {

/// The path of the control device.
pub const CONTROL_DEVICE: &'static str = "/dev/bao";

/// The name under which a failed attempt to get a guest's descriptor is
/// reported.
pub const GUEST_DESCRIPTOR: &'static str = "guest_fd";

/// The name under which a failed ioctl of the device model is reported.
pub const IOCTL_SITE: &'static str = "bao_vhost_frontend::devicemodel::BaoDeviceModel";

/// A verb of the control device, with its argument.
#[derive(Clone, Copy, Debug, PartialEq, Eq)]
pub enum BaoIoctl {
    /// Create the backend context of a guest; answers with its descriptor.
    VmVirtioBackendCreate(i32),
    /// Destroy the backend context of a guest.
    VmVirtioBackendDestroy(i32),
    /// Create the I/O client that receives the guest's trapped accesses.
    IoCreateClient(i32),
    /// Destroy the I/O client.
    IoDestroyClient,
    /// Wait until a request is ready or the client is torn down.
    IoAttachClient,
    /// Fetch the next trapped access into the record.
    IoRequest(BaoIoRequest),
    /// Give a served request back, so that the guest resumes.
    IoRequestNotifyCompleted(BaoIoRequest),
    /// Raise the configuration-change interrupt of the guest.
    IoNotifyGuest,
    /// Install or remove a route from a guest store to an eventfd.
    IoEventFd(BaoIoEventFd),
    /// Install or remove a route from an eventfd to an interrupt line.
    IrqFd(BaoIrqFd),
}

/// One ioctl to make: the descriptor and the verb.
#[derive(Clone, Copy, Debug, PartialEq, Eq)]
pub struct IoctlCall {
    pub fd: i32,
    pub request: BaoIoctl,
}

/// The device model of a guest as the contracts see it.
pub struct DeviceModelState {
    pub guest_id: u16,
    pub fd: i32,
    pub guest_fd: i32,
    pub ram_addr: u64,
    pub ram_size: u64,
}

/// How the answer of an ioctl reads: a negative value is a failure, which
/// carries the OS error.
pub open spec fn ioctl_outcome(ret: i32, os_err: i32) -> Result<(), Error> {
    if ret < 0 {
        Err(Error::BaoIoctlError(os_err, IOCTL_SITE))
    } else {
        Ok(())
    }
}

/// The device model of one guest: the descriptor of the control device
/// and the descriptor of the guest's backend context.
pub struct BaoDeviceModel {
    guest_id: u16,
    fd: i32,
    guest_fd: i32,
    pub ram_addr: u64,
    pub ram_size: u64,
}

impl View for BaoDeviceModel {
    type V = DeviceModelState;

    closed spec fn view(&self) -> DeviceModelState {
        DeviceModelState {
            guest_id: self.guest_id,
            fd: self.fd,
            guest_fd: self.guest_fd,
            ram_addr: self.ram_addr,
            ram_size: self.ram_size,
        }
    }
}

impl BaoDeviceModel {
    /// The ioctl that creates the backend context of the guest `guest_id`
    /// on the control device opened as `fd`.
    pub fn backend_create(fd: i32, guest_id: u16) -> (r: IoctlCall)
        ensures
            r == (IoctlCall { fd, request: BaoIoctl::VmVirtioBackendCreate(guest_id as i32) }),
    {
        IoctlCall { fd, request: BaoIoctl::VmVirtioBackendCreate(guest_id as i32) }
    }

    /// The device model of the guest `guest_id`, from the outcome of
    /// opening the control device (`fd`, negative when that failed) and of
    /// creating the guest's backend context (`guest_fd`, negative when
    /// that failed), with the OS error of the step that failed.
    pub fn new(
        guest_id: u16,
        ram_addr: u64,
        ram_size: u64,
        fd: i32,
        guest_fd: i32,
        os_err: i32,
    ) -> (r: Result<Self, Error>)
        ensures
            fd < 0 ==> (r matches Err(e) && e == Error::OpenFdFailed(CONTROL_DEVICE, os_err)),
            fd >= 0 && guest_fd < 0 ==> (r matches Err(e) && e == Error::OpenFdFailed(
                GUEST_DESCRIPTOR,
                os_err,
            )),
            fd >= 0 && guest_fd >= 0 ==> (r matches Ok(dm) && dm@ == (DeviceModelState {
                guest_id,
                fd,
                guest_fd,
                ram_addr,
                ram_size,
            })),
    {
        if fd < 0 {
            Err(Error::OpenFdFailed(CONTROL_DEVICE, os_err))
        } else if guest_fd < 0 {
            Err(Error::OpenFdFailed(GUEST_DESCRIPTOR, os_err))
        } else {
            Ok(BaoDeviceModel { guest_id, fd, guest_fd, ram_addr, ram_size })
        }
    }

    /// The descriptor of the control device.
    pub fn fd(&self) -> (r: i32)
        ensures
            r == self@.fd,
    {
        self.fd
    }

    /// The descriptor of the guest's backend context.
    pub fn guest_fd(&self) -> (r: i32)
        ensures
            r == self@.guest_fd,
    {
        self.guest_fd
    }

    /// The guest that the device model belongs to.
    pub fn guest_id(&self) -> (r: u16)
        ensures
            r == self@.guest_id,
    {
        self.guest_id
    }

    /// Reads the answer of an ioctl that returns nothing but its status.
    pub fn status(ret: i32, os_err: i32) -> (r: Result<(), Error>)
        ensures
            r == ioctl_outcome(ret, os_err),
    {
        if ret < 0 {
            Err(Error::BaoIoctlError(os_err, IOCTL_SITE))
        } else {
            Ok(())
        }
    }

    /// The ioctl that destroys the guest's backend context.
    pub fn destroy_call(&self) -> (r: IoctlCall)
        ensures
            r == (IoctlCall {
                fd: self@.fd,
                request: BaoIoctl::VmVirtioBackendDestroy(self@.guest_id as i32),
            }),
    {
        IoctlCall { fd: self.fd, request: BaoIoctl::VmVirtioBackendDestroy(self.guest_id as i32) }
    }

    /// Reads the answer to `destroy_call`. On success both descriptors are
    /// no longer valid and the guest's memory is forgotten; on failure the
    /// device model stays as it is.
    pub fn destroy(&mut self, ret: i32, os_err: i32) -> (r: Result<(), Error>)
        ensures
            r == ioctl_outcome(ret, os_err),
            ret < 0 ==> final(self)@ == old(self)@,
            ret >= 0 ==> final(self)@ == (DeviceModelState {
                guest_id: old(self)@.guest_id,
                fd: -1i32,
                guest_fd: -1i32,
                ram_addr: 0,
                ram_size: 0,
            }),
    {
        if ret < 0 {
            return Err(Error::BaoIoctlError(os_err, IOCTL_SITE));
        }
        self.fd = -1;
        self.guest_fd = -1;
        self.ram_addr = 0;
        self.ram_size = 0;
        Ok(())
    }

    /// The ioctl that creates the guest's I/O client.
    pub fn create_io_client(&self) -> (r: IoctlCall)
        ensures
            r == (IoctlCall {
                fd: self@.guest_fd,
                request: BaoIoctl::IoCreateClient(self@.guest_fd),
            }),
    {
        IoctlCall { fd: self.guest_fd, request: BaoIoctl::IoCreateClient(self.guest_fd) }
    }

    /// The ioctl that destroys the guest's I/O client.
    pub fn destroy_io_client(&self) -> (r: IoctlCall)
        ensures
            r == (IoctlCall { fd: self@.guest_fd, request: BaoIoctl::IoDestroyClient }),
    {
        IoctlCall { fd: self.guest_fd, request: BaoIoctl::IoDestroyClient }
    }

    /// The ioctl that waits for the guest's next trapped access.
    pub fn attach_io_client(&self) -> (r: IoctlCall)
        ensures
            r == (IoctlCall { fd: self@.guest_fd, request: BaoIoctl::IoAttachClient }),
    {
        IoctlCall { fd: self.guest_fd, request: BaoIoctl::IoAttachClient }
    }

    /// The ioctl that fetches the guest's next trapped access: the kernel
    /// fills the blank request that it is given.
    pub fn request_io(&self) -> (r: IoctlCall)
        ensures
            r == (IoctlCall {
                fd: self@.guest_fd,
                request: BaoIoctl::IoRequest(BaoIoRequest::spec_ask()),
            }),
    {
        IoctlCall { fd: self.guest_fd, request: BaoIoctl::IoRequest(BaoIoRequest::ask()) }
    }

    /// Reads the answer to `request_io`: the request as the kernel filled
    /// it, or the failure of the ioctl.
    pub fn requested(ret: i32, os_err: i32, filled: BaoIoRequest) -> (r: Result<
        BaoIoRequest,
        Error,
    >)
        ensures
            ret < 0 ==> r == Err::<BaoIoRequest, Error>(Error::BaoIoctlError(os_err, IOCTL_SITE)),
            ret >= 0 ==> r == Ok::<BaoIoRequest, Error>(filled),
    {
        if ret < 0 {
            Err(Error::BaoIoctlError(os_err, IOCTL_SITE))
        } else {
            Ok(filled)
        }
    }

    /// The ioctl that gives a served request back to the kernel.
    pub fn notify_io_completed(&self, req: BaoIoRequest) -> (r: IoctlCall)
        ensures
            r == (IoctlCall {
                fd: self@.guest_fd,
                request: BaoIoctl::IoRequestNotifyCompleted(req),
            }),
    {
        IoctlCall { fd: self.guest_fd, request: BaoIoctl::IoRequestNotifyCompleted(req) }
    }

    /// The ioctl that raises the guest's configuration-change interrupt.
    pub fn notify_guest(&self) -> (r: IoctlCall)
        ensures
            r == (IoctlCall { fd: self@.guest_fd, request: BaoIoctl::IoNotifyGuest }),
    {
        IoctlCall { fd: self.guest_fd, request: BaoIoctl::IoNotifyGuest }
    }

    /// The ioctl that installs or removes a route from a guest store to an
    /// eventfd.
    pub fn create_ioeventfd(&self, ev: BaoIoEventFd) -> (r: IoctlCall)
        ensures
            r == (IoctlCall { fd: self@.guest_fd, request: BaoIoctl::IoEventFd(ev) }),
    {
        IoctlCall { fd: self.guest_fd, request: BaoIoctl::IoEventFd(ev) }
    }

    /// The ioctl that installs or removes a route from an eventfd to an
    /// interrupt line.
    pub fn create_irqfd(&self, irq: BaoIrqFd) -> (r: IoctlCall)
        ensures
            r == (IoctlCall { fd: self@.guest_fd, request: BaoIoctl::IrqFd(irq) }),
    {
        IoctlCall { fd: self.guest_fd, request: BaoIoctl::IrqFd(irq) }
    }
}

} // verus!
