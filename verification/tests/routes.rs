use bao_vhost_frontend::defs::{
    BAO_IOEVENTFD_FLAG_DATAMATCH, BAO_IOEVENTFD_FLAG_DEASSIGN, QUEUE_NOTIFY_LEN,
    VIRTIO_MMIO_QUEUE_NOTIFY,
};
use bao_vhost_frontend::error::Error;
use bao_vhost_frontend::mmio::BaoMmio;
use bao_vhost_frontend::model::RamRegion;
use bao_vhost_frontend::types::BaoIoEventFd;

fn takes(route: &BaoIoEventFd, addr: u64, len: u32, value: u64) -> bool {
    route.addr == addr
        && route.len == len
        && (route.flags & BAO_IOEVENTFD_FLAG_DATAMATCH == 0 || route.data == value)
}

#[test]
fn each_queue_gets_its_route() {
    let mut m = BaoMmio::new(0xa003e00, 3);
    let first = m.next_route(41);
    assert_eq!(
        first,
        BaoIoEventFd {
            fd: 41,
            flags: BAO_IOEVENTFD_FLAG_DATAMATCH,
            addr: 0xa003e50,
            len: 4,
            reserved: 0,
            data: 0
        }
    );
    m.push_queue(256, 41);
    let second = m.next_route(57);
    assert_eq!(
        second,
        BaoIoEventFd {
            fd: 57,
            flags: BAO_IOEVENTFD_FLAG_DATAMATCH,
            addr: 0xa003e50,
            len: 4,
            reserved: 0,
            data: 1
        }
    );
    m.push_queue(128, 57);
    let third = m.next_route(3);
    assert_eq!(third.data, 2);
    assert_eq!(third.fd, 3);
    assert_eq!(third.addr, 0xa003e00 + VIRTIO_MMIO_QUEUE_NOTIFY as u64);
    assert_eq!(third.len, QUEUE_NOTIFY_LEN);
}

#[test]
fn notification_is_taken_by_the_route_of_its_queue() {
    let mut m = BaoMmio::new(0xa003e00, 3);
    let mut routes: Vec<BaoIoEventFd> = Vec::new();
    let kicks: [u32; 3] = [41, 57, 3];
    for kick in kicks {
        routes.push(m.next_route(kick));
        m.push_queue(64, kick);
    }
    let mut k: u64 = 0;
    while k < 3 {
        let woken: Vec<u32> = routes
            .iter()
            .filter(|r| takes(r, 0xa003e50, 4, k))
            .map(|r| r.fd)
            .collect();
        assert_eq!(woken, vec![kicks[k as usize]]);
        k += 1;
    }
    assert!(routes.iter().all(|r| !takes(r, 0xa003e50, 4, 3)));
    assert!(routes.iter().all(|r| !takes(r, 0xa003e50, 2, 0)));
    assert!(routes.iter().all(|r| !takes(r, 0xa003e54, 4, 0)));
}

#[test]
fn routes_are_released_as_they_were_installed() {
    let mut m = BaoMmio::new(0xa003e00, 2);
    let mut installed: Vec<BaoIoEventFd> = Vec::new();
    installed.push(m.next_route(41));
    m.push_queue(256, 41);
    installed.push(m.next_route(57));
    m.push_queue(128, 57);
    let released = m.release_routes();
    assert_eq!(released.len(), 2);
    let mut k: usize = 0;
    while k < 2 {
        assert_eq!(released[k].fd, installed[k].fd);
        assert_eq!(released[k].addr, installed[k].addr);
        assert_eq!(released[k].len, installed[k].len);
        assert_eq!(released[k].data, installed[k].data);
        assert_eq!(released[k].reserved, 0);
        assert_eq!(released[k].flags, BAO_IOEVENTFD_FLAG_DEASSIGN);
        k += 1;
    }
    assert_eq!(
        released[1],
        BaoIoEventFd { fd: 57, flags: 4, addr: 0xa003e50, len: 4, reserved: 0, data: 1 }
    );
}

#[test]
fn each_queue_has_an_eventfd_of_its_own() {
    let mut m = BaoMmio::new(0xa003e00, 3);
    assert!(m.takes_kick(41));
    m.push_queue(256, 41);
    assert!(!m.takes_kick(41));
    assert!(m.takes_kick(57));
    m.push_queue(128, 57);
    assert!(!m.takes_kick(41));
    assert!(!m.takes_kick(57));
    assert!(m.takes_kick(0));
}

#[test]
fn engine_without_queues_releases_nothing() {
    let m = BaoMmio::new(0xa003e00, 2);
    assert_eq!(m.release_routes(), Vec::new());
    assert_eq!(m.queue_len(), 0);
    assert_eq!(m.queues_count(), 2);
}

#[test]
fn window_must_leave_room_for_the_registers() {
    assert!(BaoMmio::window_fits(0));
    assert!(BaoMmio::window_fits(0xa003e00));
    assert!(BaoMmio::window_fits(u64::MAX - 0x50));
    assert!(!BaoMmio::window_fits(u64::MAX - 0x4f));
    assert!(!BaoMmio::window_fits(u64::MAX));
    let m = BaoMmio::new(u64::MAX - 0x50, 1);
    assert_eq!(m.next_route(1).addr, u64::MAX);
}

#[test]
fn guest_memory_is_mapped_from_its_physical_base() {
    assert_eq!(
        BaoMmio::ram_mapping(0x6000_0000, 0x0100_0000),
        RamRegion { guest_base: 0, file_offset: 0x6000_0000, len: 0x0100_0000 }
    );
    assert_eq!(
        BaoMmio::ram_mapping(0, 0),
        RamRegion { guest_base: 0, file_offset: 0, len: 0 }
    );
}

#[test]
fn failed_mapping_is_reported() {
    let mut m = BaoMmio::new(0xa003e00, 1);
    let region = BaoMmio::ram_mapping(0x6000_0000, 0x0100_0000);
    assert_eq!(m.map_region(region, false), Err(Error::MmapGuestMemoryFailed));
    assert_eq!(m.regions_len(), 0);
    assert_eq!(m.map_region(region, true), Ok(()));
    assert_eq!(m.regions_len(), 1);
}
