//! The errors of the frontend.

use vstd::prelude::*;

verus! {

/// What can go wrong while a device is built, served or torn down.
#[derive(Debug, Clone, PartialEq, Eq)]
pub enum Error {
    /// A kernel descriptor could not be opened: which one, and the OS error.
    OpenFdFailed(&'static str, i32),
    /// An ioctl on the control device failed: the OS error, and the caller.
    BaoIoctlError(i32, &'static str),
    /// No device class is registered under this compatible string.
    BaoDevNotSupported(String),
    /// The backend refused the handshake or the feature negotiation.
    VhostFrontendError(String),
    /// The backend refused the activation.
    VhostFrontendActivateError(String),
    /// A feature window other than 0 or 1 was selected for a read.
    InvalidFeatureSel(u32),
    /// No register lives at this offset for this direction.
    InvalidMmioAddr(&'static str, u64),
    /// The request is neither a read nor a write.
    InvalidMmioDir(u8),
    /// The driver did not accept the modern layout.
    MmioLegacyNotSupported,
    /// The driver did not accept access through the platform's IOMMU.
    IommuPlatformNotSupported,
    /// Guest memory could not be mapped.
    MmapGuestMemoryFailed,
}

} // verus!
