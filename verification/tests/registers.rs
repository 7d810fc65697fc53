use bao_vhost_frontend::defs::{BAO_IO_ASK, BAO_IO_FAULT, BAO_IO_OK, BAO_IO_READ, BAO_IO_WRITE};
use bao_vhost_frontend::error::Error;
use bao_vhost_frontend::mmio::{BaoMmio, MmioAction};
use bao_vhost_frontend::model::BackendInfo;
use bao_vhost_frontend::types::BaoIoRequest;

fn base() -> u64 {
    0xa003e00
}

fn backend() -> BackendInfo {
    BackendInfo { device_type: 4, device_features: 0 }
}

fn load(off: u64) -> BaoIoRequest {
    BaoIoRequest {
        virtio_id: 0,
        reg_off: off,
        addr: base() + off,
        op: BAO_IO_READ,
        value: 0xdead_beef_dead_beef,
        access_width: 4,
        ret: 0,
    }
}

fn store(off: u64, value: u64) -> BaoIoRequest {
    BaoIoRequest {
        virtio_id: 0,
        reg_off: off,
        addr: base() + off,
        op: BAO_IO_WRITE,
        value,
        access_width: 4,
        ret: 0,
    }
}

fn engine() -> BaoMmio {
    let mut m = BaoMmio::new(base(), 2);
    m.push_queue(256, 10);
    m.push_queue(128, 11);
    m.map_region(BaoMmio::ram_mapping(0x6000_0000, 0x0100_0000), true).unwrap();
    m
}

fn read(m: &mut BaoMmio, off: u64) -> u64 {
    let mut req = load(off);
    assert_eq!(m.io_event(&mut req, &backend()), Ok(MmioAction::Done));
    req.value
}

fn write(m: &mut BaoMmio, off: u64, value: u64) {
    let mut req = store(off, value);
    assert_eq!(m.io_event(&mut req, &backend()), Ok(MmioAction::Done));
    assert_eq!(req, store(off, value));
}

#[test]
fn magic_and_version_read() {
    let mut m = engine();
    assert_eq!(read(&mut m, 0x000), 0x74726976);
    assert_eq!(read(&mut m, 0x004), 2);
    let word: u32 = u32::from_le_bytes([b'v', b'i', b'r', b't']);
    assert_eq!(read(&mut m, 0x000), word as u64);
}

#[test]
fn device_id_and_vendor_read() {
    let mut m = engine();
    assert_eq!(read(&mut m, 0x008), 4);
    assert_eq!(read(&mut m, 0x00c), 0x4d564b4c);
    let mut req = load(0x008);
    let other = BackendInfo { device_type: 19, device_features: 0 };
    assert_eq!(m.io_event(&mut req, &other), Ok(MmioAction::Done));
    assert_eq!(req.value, 19);
}

#[test]
fn fresh_engine_reads_zero() {
    let mut m = engine();
    assert_eq!(read(&mut m, 0x070), 0);
    assert_eq!(read(&mut m, 0x044), 0);
    assert_eq!(read(&mut m, 0x080), 0);
    assert_eq!(read(&mut m, 0x084), 0);
    assert_eq!(read(&mut m, 0x090), 0);
    assert_eq!(read(&mut m, 0x094), 0);
    assert_eq!(read(&mut m, 0x0a0), 0);
    assert_eq!(read(&mut m, 0x0a4), 0);
    assert_eq!(m.status(), 0);
    assert_eq!(m.queue_sel(), 0);
    assert_eq!(m.driver_features(), 0);
    assert_eq!(m.queues_count(), 2);
    assert_eq!(m.queue_len(), 2);
    assert_eq!(m.pending_len(), 0);
    assert_eq!(m.regions_len(), 1);
    assert_eq!(m.addr(), 0xa003e00);
}

#[test]
fn read_leaves_other_fields_of_request() {
    let mut m = engine();
    let mut req = load(0x004);
    assert_eq!(m.io_event(&mut req, &backend()), Ok(MmioAction::Done));
    let mut expected = load(0x004);
    expected.value = 2;
    assert_eq!(req, expected);
}

#[test]
fn status_write_then_read() {
    let mut m = engine();
    write(&mut m, 0x070, 0x0f);
    assert_eq!(read(&mut m, 0x070), 0x0f);
    assert_eq!(m.status(), 0x0f);
}

#[test]
fn stored_value_is_taken_by_its_low_word() {
    let mut m = engine();
    write(&mut m, 0x070, 0x1234_5678_0000_0005);
    assert_eq!(read(&mut m, 0x070), 5);
}

#[test]
fn interrupt_status_reads_vring_bit() {
    let mut m = engine();
    assert_eq!(read(&mut m, 0x060), 1);
    write(&mut m, 0x064, 0xffff_ffff);
    assert_eq!(read(&mut m, 0x060), 1);
}

#[test]
fn queue_num_max_of_selected_queue() {
    let mut m = engine();
    assert_eq!(read(&mut m, 0x034), 256);
    write(&mut m, 0x030, 1);
    assert_eq!(m.queue_sel(), 1);
    assert_eq!(read(&mut m, 0x034), 128);
}

#[test]
fn queue_registers_round_trip() {
    let mut m = engine();
    write(&mut m, 0x030, 1);
    write(&mut m, 0x038, 64);
    write(&mut m, 0x080, 0x1000_0000);
    write(&mut m, 0x084, 0x1);
    write(&mut m, 0x090, 0x2000_0000);
    write(&mut m, 0x094, 0x2);
    write(&mut m, 0x0a0, 0x3000_0000);
    write(&mut m, 0x0a4, 0x3);
    assert_eq!(read(&mut m, 0x080), 0x1000_0000);
    assert_eq!(read(&mut m, 0x084), 0x1);
    assert_eq!(read(&mut m, 0x090), 0x2000_0000);
    assert_eq!(read(&mut m, 0x094), 0x2);
    assert_eq!(read(&mut m, 0x0a0), 0x3000_0000);
    assert_eq!(read(&mut m, 0x0a4), 0x3);
    let q = m.queue(1).unwrap();
    assert_eq!(q.size, 64);
    assert_eq!(q.size_max, 128);
    assert_eq!(q.ready, 0);
    assert_eq!(q.kick, 11);
    let untouched = m.queue(0).unwrap();
    assert_eq!(untouched.size, 0);
    assert_eq!(untouched.desc_lo, 0);
    assert_eq!(untouched.kick, 10);
    assert_eq!(m.queue(2), None);
    write(&mut m, 0x030, 0);
    assert_eq!(read(&mut m, 0x080), 0);
}

#[test]
fn config_generation_reads_zero() {
    let mut m = engine();
    assert_eq!(read(&mut m, 0x0fc), 0);
}

#[test]
fn read_of_unknown_register_fails() {
    let mut m = engine();
    let mut req = load(0x038);
    assert_eq!(m.io_event(&mut req, &backend()), Err(Error::InvalidMmioAddr("read", 0x038)));
    assert_eq!(req, load(0x038));
    let mut req = load(0x0f8);
    assert_eq!(m.io_event(&mut req, &backend()), Err(Error::InvalidMmioAddr("read", 0x0f8)));
}

#[test]
fn write_of_unknown_register_fails() {
    let mut m = engine();
    let mut req = store(0x000, 1);
    assert_eq!(m.io_event(&mut req, &backend()), Err(Error::InvalidMmioAddr("write", 0x000)));
    let mut req = store(0x034, 1);
    assert_eq!(m.io_event(&mut req, &backend()), Err(Error::InvalidMmioAddr("write", 0x034)));
    assert_eq!(read(&mut m, 0x034), 256);
    assert_eq!(m.status(), 0);
}

#[test]
fn request_that_is_no_load_or_store_fails() {
    let mut m = engine();
    let mut req = load(0x000);
    req.op = BAO_IO_ASK;
    assert_eq!(m.io_event(&mut req, &backend()), Err(Error::InvalidMmioDir(2)));
    let mut req = load(0x100);
    req.op = 0x1ff;
    assert_eq!(m.io_event(&mut req, &backend()), Err(Error::InvalidMmioDir(0xff)));
    let mut req = store(0x070, 3);
    req.op = 7;
    assert_eq!(m.io_event(&mut req, &backend()), Err(Error::InvalidMmioDir(7)));
    assert_eq!(m.status(), 0);
}

#[test]
fn queue_notify_store_changes_nothing() {
    let mut m = engine();
    write(&mut m, 0x050, 1);
    assert_eq!(m.pending_len(), 0);
    assert_eq!(m.queue_sel(), 0);
    assert_eq!(m.queue(1).unwrap().ready, 0);
}

#[test]
fn config_space_load_asks_the_backend() {
    let mut m = engine();
    let mut req = load(0x100);
    req.access_width = 2;
    assert_eq!(
        m.io_event(&mut req, &backend()),
        Ok(MmioAction::ReadConfig { offset: 0, width: 2 })
    );
    let mut req = load(0x108);
    req.access_width = 8;
    assert_eq!(
        m.io_event(&mut req, &backend()),
        Ok(MmioAction::ReadConfig { offset: 8, width: 8 })
    );
    BaoMmio::config_value(&mut req, 0x1122);
    let mut expected = load(0x108);
    expected.access_width = 8;
    expected.value = 0x1122;
    assert_eq!(req, expected);
}

#[test]
fn config_space_store_asks_the_backend() {
    let mut m = engine();
    let mut req = store(0x104, 0xaabb_ccdd);
    assert_eq!(
        m.io_event(&mut req, &backend()),
        Ok(MmioAction::WriteConfig { offset: 4, value: 0xaabb_ccdd, width: 4 })
    );
    assert_eq!(req, store(0x104, 0xaabb_ccdd));
}

#[test]
fn config_space_is_reached_without_a_selected_queue() {
    let mut m = engine();
    write(&mut m, 0x030, 9);
    let mut req = load(0x100);
    assert!(m.serves(&req));
    assert_eq!(
        m.io_event(&mut req, &backend()),
        Ok(MmioAction::ReadConfig { offset: 0, width: 4 })
    );
}

#[test]
fn queue_register_without_selected_queue_is_not_served() {
    let mut m = engine();
    write(&mut m, 0x030, 2);
    let queue_loads: [u64; 8] = [0x034, 0x044, 0x080, 0x084, 0x090, 0x094, 0x0a0, 0x0a4];
    for off in queue_loads {
        let mut req = load(off);
        assert!(!m.serves(&req));
        assert_eq!(m.try_io_event(&mut req, &backend()), None);
        assert_eq!(req, load(off));
    }
    let queue_stores: [u64; 7] = [0x038, 0x080, 0x084, 0x090, 0x094, 0x0a0, 0x0a4];
    for off in queue_stores {
        let mut req = store(off, 16);
        assert!(!m.serves(&req));
        assert_eq!(m.try_io_event(&mut req, &backend()), None);
    }
    let mut ready = store(0x044, 1);
    assert!(!m.serves(&ready));
    assert_eq!(m.try_io_event(&mut ready, &backend()), None);
    assert_eq!(m.pending_len(), 0);
    assert_eq!(m.queue_sel(), 2);
}

#[test]
fn other_registers_are_served_without_selected_queue() {
    let mut m = engine();
    write(&mut m, 0x030, 2);
    assert_eq!(read(&mut m, 0x000), 0x74726976);
    assert_eq!(read(&mut m, 0x004), 2);
    assert_eq!(read(&mut m, 0x008), 4);
    assert_eq!(read(&mut m, 0x060), 1);
    assert_eq!(read(&mut m, 0x0fc), 0);
    write(&mut m, 0x070, 7);
    assert_eq!(read(&mut m, 0x070), 7);
    write(&mut m, 0x044, 0);
    write(&mut m, 0x050, 0);
    let mut req = load(0x038);
    assert!(m.serves(&req));
    assert_eq!(m.io_event(&mut req, &backend()), Err(Error::InvalidMmioAddr("read", 0x038)));
    let mut req = store(0x030, 1);
    req.op = BAO_IO_ASK;
    assert!(m.serves(&req));
    assert_eq!(m.try_io_event(&mut req, &backend()), Some(Err(Error::InvalidMmioDir(2))));
    write(&mut m, 0x030, 1);
    assert_eq!(read(&mut m, 0x034), 128);
}

#[test]
fn engine_without_queues_serves_the_plain_registers() {
    let mut m = BaoMmio::new(base(), 0);
    assert_eq!(read(&mut m, 0x000), 0x74726976);
    let req = load(0x034);
    assert!(!m.serves(&req));
}

#[test]
fn wide_config_access_is_not_served() {
    let mut m = engine();
    let mut req = load(0x100);
    req.access_width = 9;
    assert!(!m.serves(&req));
    assert_eq!(m.try_io_event(&mut req, &backend()), None);
    req.access_width = 8;
    assert!(m.serves(&req));
    assert_eq!(
        m.try_io_event(&mut req, &backend()),
        Some(Ok(MmioAction::ReadConfig { offset: 0, width: 8 }))
    );
}

#[test]
fn served_access_goes_through_try_io_event() {
    let mut m = engine();
    let mut req = load(0x000);
    assert_eq!(m.try_io_event(&mut req, &backend()), Some(Ok(MmioAction::Done)));
    assert_eq!(req.value, 0x74726976);
}

#[test]
fn completed_request_carries_its_status() {
    let mut req = load(0x000);
    req.complete(&Ok(()));
    assert_eq!(req.ret, BAO_IO_OK);
    assert_eq!(req.ret, 0);
    req.complete(&Err(Error::InvalidFeatureSel(2)));
    assert_eq!(req.ret, BAO_IO_FAULT);
    assert_ne!(req.ret, 0);
    let mut expected = load(0x000);
    expected.ret = BAO_IO_FAULT;
    assert_eq!(req, expected);
}

#[test]
fn blank_request_asks() {
    let req = BaoIoRequest::ask();
    assert_eq!(
        req,
        BaoIoRequest {
            virtio_id: 0,
            reg_off: 0,
            addr: 0,
            op: BAO_IO_ASK,
            value: 0,
            access_width: 0,
            ret: 0
        }
    );
}
