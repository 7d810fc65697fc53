use bao_vhost_frontend::devicemodel::{
    BaoDeviceModel, BaoIoctl, IoctlCall, CONTROL_DEVICE, GUEST_DESCRIPTOR, IOCTL_SITE,
};
use bao_vhost_frontend::error::Error;
use bao_vhost_frontend::types::{BaoIoEventFd, BaoIoRequest, BaoIrqFd};

fn model() -> BaoDeviceModel {
    BaoDeviceModel::new(2, 0x6000_0000, 0x0100_0000, 3, 5, 0).unwrap()
}

#[test]
fn device_model_keeps_its_descriptors() {
    let dm = model();
    assert_eq!(dm.guest_id(), 2);
    assert_eq!(dm.fd(), 3);
    assert_eq!(dm.guest_fd(), 5);
    assert_eq!(dm.ram_addr, 0x6000_0000);
    assert_eq!(dm.ram_size, 0x0100_0000);
}

#[test]
fn failed_open_is_reported() {
    assert_eq!(CONTROL_DEVICE, "/dev/bao");
    assert_eq!(GUEST_DESCRIPTOR, "guest_fd");
    let r = BaoDeviceModel::new(2, 0x6000_0000, 0x0100_0000, -1, -1, 13);
    assert_eq!(r.err(), Some(Error::OpenFdFailed("/dev/bao", 13)));
    let r = BaoDeviceModel::new(2, 0x6000_0000, 0x0100_0000, -1, 7, 2);
    assert_eq!(r.err(), Some(Error::OpenFdFailed("/dev/bao", 2)));
    let r = BaoDeviceModel::new(2, 0x6000_0000, 0x0100_0000, 3, -1, 22);
    assert_eq!(r.err(), Some(Error::OpenFdFailed("guest_fd", 22)));
    assert!(BaoDeviceModel::new(2, 0, 0, 0, 0, 0).is_ok());
}

#[test]
fn backend_context_is_created_on_the_control_device() {
    assert_eq!(
        BaoDeviceModel::backend_create(3, 2),
        IoctlCall { fd: 3, request: BaoIoctl::VmVirtioBackendCreate(2) }
    );
    assert_eq!(
        BaoDeviceModel::backend_create(3, 0xffff),
        IoctlCall { fd: 3, request: BaoIoctl::VmVirtioBackendCreate(65535) }
    );
}

#[test]
fn ioctl_status_is_read() {
    assert_eq!(BaoDeviceModel::status(0, 0), Ok(()));
    assert_eq!(BaoDeviceModel::status(7, 11), Ok(()));
    assert_eq!(BaoDeviceModel::status(-1, 11), Err(Error::BaoIoctlError(11, IOCTL_SITE)));
    assert_eq!(
        BaoDeviceModel::status(i32::MIN, 5),
        Err(Error::BaoIoctlError(5, "bao_vhost_frontend::devicemodel::BaoDeviceModel"))
    );
}

#[test]
fn destroy_invalidates_the_descriptors() {
    let mut dm = model();
    assert_eq!(
        dm.destroy_call(),
        IoctlCall { fd: 3, request: BaoIoctl::VmVirtioBackendDestroy(2) }
    );
    assert_eq!(dm.destroy(-1, 16), Err(Error::BaoIoctlError(16, IOCTL_SITE)));
    assert_eq!(dm.fd(), 3);
    assert_eq!(dm.guest_fd(), 5);
    assert_eq!(dm.ram_size, 0x0100_0000);
    assert_eq!(dm.destroy(0, 0), Ok(()));
    assert_eq!(dm.fd(), -1);
    assert_eq!(dm.guest_fd(), -1);
    assert_eq!(dm.ram_addr, 0);
    assert_eq!(dm.ram_size, 0);
    assert_eq!(dm.guest_id(), 2);
}

#[test]
fn io_client_verbs_go_to_the_guest_descriptor() {
    let dm = model();
    assert_eq!(
        dm.create_io_client(),
        IoctlCall { fd: 5, request: BaoIoctl::IoCreateClient(5) }
    );
    assert_eq!(dm.destroy_io_client(), IoctlCall { fd: 5, request: BaoIoctl::IoDestroyClient });
    assert_eq!(dm.attach_io_client(), IoctlCall { fd: 5, request: BaoIoctl::IoAttachClient });
    assert_eq!(dm.notify_guest(), IoctlCall { fd: 5, request: BaoIoctl::IoNotifyGuest });
}

#[test]
fn request_is_fetched_and_given_back() {
    let dm = model();
    assert_eq!(
        dm.request_io(),
        IoctlCall { fd: 5, request: BaoIoctl::IoRequest(BaoIoRequest::ask()) }
    );
    let filled = BaoIoRequest {
        virtio_id: 1,
        reg_off: 0x70,
        addr: 0xa003e70,
        op: 0,
        value: 3,
        access_width: 4,
        ret: 0,
    };
    assert_eq!(BaoDeviceModel::requested(0, 0, filled), Ok(filled));
    assert_eq!(
        BaoDeviceModel::requested(-1, 4, filled),
        Err(Error::BaoIoctlError(4, IOCTL_SITE))
    );
    assert_eq!(
        dm.notify_io_completed(filled),
        IoctlCall { fd: 5, request: BaoIoctl::IoRequestNotifyCompleted(filled) }
    );
}

#[test]
fn routes_are_installed_on_the_guest_descriptor() {
    let dm = model();
    let ev = BaoIoEventFd { fd: 41, flags: 2, addr: 0xa003e50, len: 4, reserved: 0, data: 1 };
    assert_eq!(dm.create_ioeventfd(ev), IoctlCall { fd: 5, request: BaoIoctl::IoEventFd(ev) });
    let irq = BaoIrqFd { fd: 9, flags: 0 };
    assert_eq!(dm.create_irqfd(irq), IoctlCall { fd: 5, request: BaoIoctl::IrqFd(irq) });
}
