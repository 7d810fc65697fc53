use bao_vhost_frontend::defs::{BAO_IO_READ, BAO_IO_WRITE};
use bao_vhost_frontend::error::Error;
use bao_vhost_frontend::mmio::{backend_error, BackendCall, BaoMmio, MmioAction};
use bao_vhost_frontend::model::{BackendInfo, FEATURE_IOMMU_PLATFORM, FEATURE_VERSION_1};
use bao_vhost_frontend::types::BaoIoRequest;

fn backend() -> BackendInfo {
    BackendInfo { device_type: 4, device_features: 0x0000_0004_8000_0021 }
}

fn load(off: u64) -> BaoIoRequest {
    BaoIoRequest {
        virtio_id: 0,
        reg_off: off,
        addr: 0xa003e00 + off,
        op: BAO_IO_READ,
        value: 0,
        access_width: 4,
        ret: 0,
    }
}

fn store(off: u64, value: u64) -> BaoIoRequest {
    BaoIoRequest {
        virtio_id: 0,
        reg_off: off,
        addr: 0xa003e00 + off,
        op: BAO_IO_WRITE,
        value,
        access_width: 4,
        ret: 0,
    }
}

fn engine() -> BaoMmio {
    let mut m = BaoMmio::new(0xa003e00, 1);
    m.push_queue(256, 10);
    m.map_region(BaoMmio::ram_mapping(0x6000_0000, 0x0100_0000), true).unwrap();
    m
}

fn write(m: &mut BaoMmio, off: u64, value: u64) -> Result<MmioAction, Error> {
    let mut req = store(off, value);
    m.io_event(&mut req, &backend())
}

#[test]
fn feature_masks_are_the_feature_bits() {
    assert_eq!(FEATURE_VERSION_1, 1u64 << 32);
    assert_eq!(FEATURE_IOMMU_PLATFORM, 1u64 << 33);
}

#[test]
fn device_features_windows() {
    let mut m = engine();
    let mut req = load(0x010);
    assert_eq!(m.io_event(&mut req, &backend()), Ok(MmioAction::Done));
    assert_eq!(req.value, 0x8000_0021);
    assert_eq!(write(&mut m, 0x014, 1), Ok(MmioAction::Done));
    let mut req = load(0x010);
    assert_eq!(m.io_event(&mut req, &backend()), Ok(MmioAction::Done));
    assert_eq!(req.value, 0x7);
    let bare = BackendInfo { device_type: 4, device_features: 0 };
    let mut req = load(0x010);
    assert_eq!(m.io_event(&mut req, &bare), Ok(MmioAction::Done));
    assert_eq!(req.value, 0x3);
    assert_eq!(write(&mut m, 0x014, 0), Ok(MmioAction::Done));
    let mut req = load(0x010);
    assert_eq!(m.io_event(&mut req, &bare), Ok(MmioAction::Done));
    assert_eq!(req.value, 0);
}

#[test]
fn device_features_invalid_selector() {
    let mut m = engine();
    assert_eq!(write(&mut m, 0x014, 2), Ok(MmioAction::Done));
    let mut req = load(0x010);
    assert_eq!(m.io_event(&mut req, &backend()), Err(Error::InvalidFeatureSel(2)));
    assert_eq!(req, load(0x010));
    assert_eq!(write(&mut m, 0x014, 0xffff_ffff), Ok(MmioAction::Done));
    let mut req = load(0x010);
    assert_eq!(m.io_event(&mut req, &backend()), Err(Error::InvalidFeatureSel(0xffff_ffff)));
}

#[test]
fn feature_negotiation_happy_path() {
    let mut m = engine();
    assert_eq!(write(&mut m, 0x024, 1), Ok(MmioAction::Done));
    assert_eq!(write(&mut m, 0x020, 0x0000_0003), Ok(MmioAction::Done));
    assert_eq!(write(&mut m, 0x024, 0), Ok(MmioAction::Done));
    assert_eq!(
        write(&mut m, 0x020, 0x0000_0000),
        Ok(MmioAction::NegotiateFeatures { features: 0x0000_0003_0000_0000 })
    );
    assert_eq!(m.driver_features(), 0x0000_0003_0000_0000);
}

#[test]
fn negotiation_carries_both_words() {
    let mut m = engine();
    assert_eq!(write(&mut m, 0x024, 1), Ok(MmioAction::Done));
    assert_eq!(write(&mut m, 0x020, 0x0000_0007), Ok(MmioAction::Done));
    assert_eq!(write(&mut m, 0x024, 0), Ok(MmioAction::Done));
    assert_eq!(
        write(&mut m, 0x020, 0x8000_0021),
        Ok(MmioAction::NegotiateFeatures { features: 0x0000_0007_8000_0021 })
    );
}

#[test]
fn legacy_driver_is_refused() {
    let mut m = engine();
    assert_eq!(write(&mut m, 0x024, 1), Ok(MmioAction::Done));
    assert_eq!(write(&mut m, 0x020, 0x0000_0002), Err(Error::MmioLegacyNotSupported));
    assert_eq!(m.driver_features(), 0x0000_0002_0000_0000);
    assert_eq!(write(&mut m, 0x020, 0x0000_0000), Err(Error::MmioLegacyNotSupported));
}

#[test]
fn driver_without_iommu_platform_is_refused() {
    let mut m = engine();
    assert_eq!(write(&mut m, 0x024, 1), Ok(MmioAction::Done));
    assert_eq!(write(&mut m, 0x020, 0x0000_0001), Err(Error::IommuPlatformNotSupported));
    assert_eq!(m.driver_features(), 0x0000_0001_0000_0000);
}

#[test]
fn driver_features_accumulate() {
    let mut m = engine();
    assert_eq!(write(&mut m, 0x024, 1), Ok(MmioAction::Done));
    assert_eq!(write(&mut m, 0x020, 0x0000_0001), Err(Error::IommuPlatformNotSupported));
    assert_eq!(write(&mut m, 0x020, 0x0000_0002), Ok(MmioAction::Done));
    assert_eq!(m.driver_features(), 0x0000_0003_0000_0000);
}

#[test]
fn refused_features_are_not_negotiated() {
    let mut m = engine();
    assert_eq!(write(&mut m, 0x024, 1), Ok(MmioAction::Done));
    assert_eq!(write(&mut m, 0x020, 0x0000_0000), Err(Error::MmioLegacyNotSupported));
    assert_eq!(write(&mut m, 0x070, 0x80), Ok(MmioAction::Done));
    assert_eq!(write(&mut m, 0x030, 0), Ok(MmioAction::Done));
    assert_eq!(write(&mut m, 0x014, 0), Ok(MmioAction::Done));
    assert_eq!(write(&mut m, 0x020, 0x0000_0000), Err(Error::MmioLegacyNotSupported));
    assert_eq!(write(&mut m, 0x038, 256), Ok(MmioAction::Done));
    let mut req = load(0x010);
    assert_eq!(m.io_event(&mut req, &backend()), Ok(MmioAction::Done));
}

#[test]
fn window_above_one_takes_no_driver_feature() {
    let mut m = engine();
    assert_eq!(write(&mut m, 0x024, 2), Ok(MmioAction::Done));
    assert_eq!(write(&mut m, 0x020, 0xffff_ffff), Ok(MmioAction::Done));
    assert_eq!(m.driver_features(), 0);
    assert_eq!(write(&mut m, 0x024, 0x0800_0000), Ok(MmioAction::Done));
    assert_eq!(write(&mut m, 0x020, 0xffff_ffff), Ok(MmioAction::Done));
    assert_eq!(m.driver_features(), 0);
}

#[test]
fn lower_word_alone_is_negotiated() {
    let mut m = engine();
    assert_eq!(
        write(&mut m, 0x020, 0x21),
        Ok(MmioAction::NegotiateFeatures { features: 0x21 })
    );
}

#[test]
fn backend_failures_are_reported() {
    assert_eq!(
        backend_error(BackendCall::Connect, String::from("no socket")),
        Error::VhostFrontendError(String::from("no socket"))
    );
    assert_eq!(
        backend_error(BackendCall::Negotiate, String::from("refused")),
        Error::VhostFrontendError(String::from("refused"))
    );
    assert_eq!(
        backend_error(BackendCall::Activate, String::from("refused")),
        Error::VhostFrontendActivateError(String::from("refused"))
    );
}

#[test]
fn actions_name_the_call_that_can_fail() {
    assert_eq!(MmioAction::Done.call(), None);
    assert_eq!(MmioAction::ReadConfig { offset: 0, width: 4 }.call(), None);
    assert_eq!(MmioAction::WriteConfig { offset: 0, value: 1, width: 4 }.call(), None);
    assert_eq!(
        MmioAction::NegotiateFeatures { features: 3 }.call(),
        Some(BackendCall::Negotiate)
    );
    assert_eq!(
        MmioAction::Activate { regions: Vec::new(), queues: Vec::new() }.call(),
        Some(BackendCall::Activate)
    );
}
