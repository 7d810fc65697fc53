//! Control plane of a virtio-MMIO frontend for the Bao hypervisor.
//!
//! The hypervisor forwards trapped guest accesses to user space. This
//! library decodes each access into virtio-MMIO register semantics, keeps
//! the register file and the per-virtqueue records, decides when the
//! vhost-user backend has to negotiate features or be activated, and says
//! which kernel routes (ioeventfd, irqfd) have to be installed and removed.
//! File descriptors, sockets and memory mappings are acquired by the
//! caller; the library works on their plain values.

pub mod defs;
pub mod device;
pub mod devicemodel;
pub mod error;
pub mod frontend;
pub mod guest;
pub mod interrupt;
pub mod laws;
pub mod mmio;
pub mod model;
pub mod registry;
pub mod types;
pub mod vring;
