use bao_vhost_frontend::mmio::BaoMmio;
use bao_vhost_frontend::model::RamRegion;
use std::sync::Arc;
use vm_memory::{Bytes, FileOffset, GuestAddress, GuestMemoryMmap, GuestRegionMmap};
use vmm_sys_util::tempfile::TempFile;

/// Write and read with offset zero.
#[test]
fn write_and_read_offset_zero() {
    let file_offset: u64 = 0x0;
    let file_size: u64 = 0x400;
    let guest_addr_init: u64 = 0x1000;
    let guest_addr_end: u64 = 0x13ff;

    let f = TempFile::new().unwrap().into_file();
    f.set_len(file_size).unwrap();

    let mut start_addr = GuestAddress(guest_addr_init);

    let gm: GuestMemoryMmap<()> =
        GuestMemoryMmap::from_ranges(&[(start_addr, file_size as usize)]).unwrap();

    let gm_backed_by_file: GuestMemoryMmap<()> = GuestMemoryMmap::from_ranges_with_files(&[(
        start_addr,
        file_size as usize,
        Some(FileOffset::new(f, file_offset)),
    )])
    .unwrap();

    let gm_list = vec![gm, gm_backed_by_file];

    for gm in gm_list.iter() {
        let sample_buf = &[1, 2, 3, 4, 5];

        assert_eq!(gm.write(sample_buf, start_addr).unwrap(), 5);

        let buf = &mut [0u8; 5];

        assert_eq!(gm.read(buf, start_addr).unwrap(), 5);

        assert_eq!(buf, sample_buf);

        start_addr = GuestAddress(guest_addr_end);

        assert_eq!(gm.write(sample_buf, start_addr).unwrap(), 1);
        assert_eq!(gm.read(buf, start_addr).unwrap(), 1);
        assert_eq!(buf[0], sample_buf[0]);
        start_addr = GuestAddress(guest_addr_init);
    }
}

/// Write and read with offset greater than zero.
#[test]
fn write_and_read_offset_greater_than_zero() {
    let file_offset: u64 = 0x1000;
    let file_size: u64 = 0x400;
    let guest_addr_init: u64 = 0x0;
    let guest_addr_end: u64 = 0x3ff;

    assert_eq!(
        BaoMmio::ram_mapping(file_offset, file_size),
        RamRegion { guest_base: guest_addr_init, file_offset, len: file_size }
    );

    let f = TempFile::new().unwrap().into_file();
    f.set_len(file_offset + file_size).unwrap();

    let mut start_addr = GuestAddress(guest_addr_init);

    let gm: GuestMemoryMmap<()> =
        GuestMemoryMmap::from_ranges(&[(start_addr, file_size as usize)]).unwrap();

    let gm_backed_by_file: GuestMemoryMmap<()> = GuestMemoryMmap::from_ranges_with_files(&[(
        start_addr,
        file_size as usize,
        Some(FileOffset::new(f, file_offset)),
    )])
    .unwrap();

    let gm_list = vec![gm, gm_backed_by_file];

    for gm in gm_list.iter() {
        let sample_buf = &[1, 2, 3, 4, 5];

        assert_eq!(gm.write(sample_buf, start_addr).unwrap(), 5);

        let buf = &mut [0u8; 5];

        assert_eq!(gm.read(buf, start_addr).unwrap(), 5);

        assert_eq!(buf, sample_buf);

        start_addr = GuestAddress(guest_addr_end);

        assert_eq!(gm.write(sample_buf, start_addr).unwrap(), 1);
        assert_eq!(gm.read(buf, start_addr).unwrap(), 1);
        assert_eq!(buf[0], sample_buf[0]);
        start_addr = GuestAddress(guest_addr_init);
    }
}

/// Write and read within a region.
#[test]
fn write_and_read_region_mmap() {
    let file_offset: u64 = 0x1000;
    let file_size: u64 = 0x400;
    let guest_addr_init: u64 = 0x0;
    let guest_addr_end: u64 = 0x3ff;

    let plan = BaoMmio::ram_mapping(file_offset, file_size);
    assert_eq!(plan.guest_base, guest_addr_init);
    assert_eq!(plan.file_offset, file_offset);
    assert_eq!(plan.len, file_size);

    let f = TempFile::new().unwrap().into_file();
    f.set_len(file_offset + file_size).unwrap();
    assert_eq!(f.metadata().unwrap().len(), file_offset + file_size);
    let f_clone = f.try_clone().unwrap();
    let file = Arc::new(f);

    let mut start_addr = GuestAddress(plan.guest_base);

    let mut regions = Vec::new();
    let region: GuestRegionMmap<()> = GuestRegionMmap::from_range(
        start_addr,
        plan.len as usize,
        Some(FileOffset::from_arc(file, plan.file_offset)),
    )
    .unwrap();

    regions.push(region);

    let gm: GuestMemoryMmap<()> = GuestMemoryMmap::from_regions(regions).unwrap();

    let gm_backed_by_file: GuestMemoryMmap<()> = GuestMemoryMmap::from_ranges_with_files(&[(
        start_addr,
        file_size as usize,
        Some(FileOffset::new(f_clone, file_offset)),
    )])
    .unwrap();

    let gm_list = vec![gm, gm_backed_by_file];

    for gm in gm_list.iter() {
        let sample_buf = &[1, 2, 3, 4, 5];

        assert_eq!(gm.write(sample_buf, start_addr).unwrap(), 5);

        let buf = &mut [0u8; 5];

        assert_eq!(gm.read(buf, start_addr).unwrap(), 5);

        assert_eq!(buf, sample_buf);

        start_addr = GuestAddress(guest_addr_end);

        assert_eq!(gm.write(sample_buf, start_addr).unwrap(), 1);
        assert_eq!(gm.read(buf, start_addr).unwrap(), 1);
        assert_eq!(buf[0], sample_buf[0]);
        start_addr = GuestAddress(guest_addr_init);
    }
}
