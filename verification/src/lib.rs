//! Hypervisor-agnostic abstraction layer: backend identity, capability
//! queries, VM creation behind a shared handle, a two-tier error taxonomy
//! that preserves low-level causes, and CPU vendor detection.

use vstd::prelude::*;

pub mod cpu;
pub mod device;
pub mod hypervisor;
pub mod ioerr;

pub use crate::cpu::{cpu_vendor_from_leaf0, CpuIdEntry, CpuVendor, CpuidLeaf};
pub use crate::device::{DeviceError, HypervisorDeviceError};
pub use crate::hypervisor::{
    Error, HvResult, Hypervisor, HypervisorError, TdxCapabilities, VmError,
};

verus! {

/// Tag identifying which native virtualization backend is active.
///
/// Set once when a backend instance is constructed and immutable thereafter;
/// callers branch on it only when the common interface is insufficient.
#[derive(Clone, Copy, Debug, PartialEq, Eq, Structural)]
pub enum HypervisorKind {
    /// The Linux in-kernel hypervisor.
    Kvm,
    /// The hosted hypervisor interface.
    Mshv,
}

/// Caller-supplied configuration for VM creation.
///
/// This layer treats it as an input contract: it is validated by the active
/// backend, never stored or mutated here.
#[derive(Clone, Copy, Debug, PartialEq, Eq, Structural)]
pub struct HypervisorVmConfig {
    /// Guest memory size in bytes.
    pub memory_size: u64,
    /// Number of virtual CPUs requested for the guest.
    pub vcpu_count: u32,
    /// Backend-interpreted feature flags.
    pub features: u64,
}

} // verus!
