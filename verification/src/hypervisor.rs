//! The polymorphic hypervisor interface and its layered error taxonomy.
//!
//! A virtual-machine monitor drives one backend instance through the
//! [`Hypervisor`] trait regardless of which native hypervisor is present.
//! Every fallible operation fails with a [`HypervisorError`], a situated
//! error that names the operation and, where a native call failed
//! underneath, wraps its low-level cause losslessly.

use std::sync::Arc;
use vstd::prelude::*;

use crate::cpu::{cpu_vendor_from_leaf0, vendor_of_leaf0, CpuIdEntry, CpuVendor, CpuidLeaf};
use crate::{HypervisorKind, HypervisorVmConfig};

verus! {

/// Low-level hypervisor operation error: the raw failure of a native call,
/// tagged with the operation that failed. `UnsupportedCpu` stands alone: it
/// is raised by this layer's own validation, with no native call beneath it.
#[derive(Debug)]
pub enum Error {
    /// Failed to check availability of the hypervisor.
    HypervisorAvailableCheck(std::io::Error),
    /// Failed to create the hypervisor.
    HypervisorCreate(std::io::Error),
    /// Failed to get the API version.
    GetApiVersion(std::io::Error),
    /// Checking extensions failed.
    CheckExtensions(std::io::Error),
    /// Failed to get the supported CPU identification leaves.
    GetCpuId(std::io::Error),
    /// Failed to get the list of supported model-specific registers.
    GetMsrList(std::io::Error),
    /// Failed to retrieve the confidential-computing capabilities.
    TdxCapabilities(std::io::Error),
    /// Failed to set a partition property.
    SetPartitionProperty(std::io::Error),
    /// Running on an unsupported CPU.
    UnsupportedCpu,
}

impl Error {
    /// The static description of the operation that failed.
    pub open spec fn spec_message(self) -> Seq<char> {
        match self {
            Error::HypervisorAvailableCheck(_) => "Failed to check availability of the hypervisor"@,
            Error::HypervisorCreate(_) => "Failed to create the hypervisor"@,
            Error::GetApiVersion(_) => "Failed to get API Version"@,
            Error::CheckExtensions(_) => "Checking extensions"@,
            Error::GetCpuId(_) => "Failed to get cpuid"@,
            Error::GetMsrList(_) => "Failed to get the list of supported MSRs"@,
            Error::TdxCapabilities(_) => "Failed to retrieve TDX capabilities"@,
            Error::SetPartitionProperty(_) => "Failed to set partition property"@,
            Error::UnsupportedCpu => "Unsupported CPU"@,
        }
    }

    /// The wrapped raw failure, or `None` for the one variant this layer
    /// raises on its own.
    pub open spec fn spec_source(self) -> Option<std::io::Error> {
        match self {
            Error::HypervisorAvailableCheck(e) => Some(e),
            Error::HypervisorCreate(e) => Some(e),
            Error::GetApiVersion(e) => Some(e),
            Error::CheckExtensions(e) => Some(e),
            Error::GetCpuId(e) => Some(e),
            Error::GetMsrList(e) => Some(e),
            Error::TdxCapabilities(e) => Some(e),
            Error::SetPartitionProperty(e) => Some(e),
            Error::UnsupportedCpu => None,
        }
    }

    /// Describes which operation failed.
    pub fn message(&self) -> (r: &'static str)
        ensures
            r@ == self.spec_message(),
    {
        match self {
            Error::HypervisorAvailableCheck(_) => "Failed to check availability of the hypervisor",
            Error::HypervisorCreate(_) => "Failed to create the hypervisor",
            Error::GetApiVersion(_) => "Failed to get API Version",
            Error::CheckExtensions(_) => "Checking extensions",
            Error::GetCpuId(_) => "Failed to get cpuid",
            Error::GetMsrList(_) => "Failed to get the list of supported MSRs",
            Error::TdxCapabilities(_) => "Failed to retrieve TDX capabilities",
            Error::SetPartitionProperty(_) => "Failed to set partition property",
            Error::UnsupportedCpu => "Unsupported CPU",
        }
    }

    /// The underlying raw failure, preserved losslessly where one exists.
    pub fn source(&self) -> (r: Option<&std::io::Error>)
        ensures
            match r {
                Some(e) => self.spec_source() == Some(*e),
                None => self.spec_source() is None,
            },
    {
        match self {
            Error::HypervisorAvailableCheck(e) => Some(e),
            Error::HypervisorCreate(e) => Some(e),
            Error::GetApiVersion(e) => Some(e),
            Error::CheckExtensions(e) => Some(e),
            Error::GetCpuId(e) => Some(e),
            Error::GetMsrList(e) => Some(e),
            Error::TdxCapabilities(e) => Some(e),
            Error::SetPartitionProperty(e) => Some(e),
            Error::UnsupportedCpu => None,
        }
    }
}

/// Low-level VM lifecycle error: the raw failure of the native creation or
/// setup call.
#[derive(Debug)]
pub enum VmError {
    /// Failed to create the VM.
    VmCreate(std::io::Error),
    /// Failed to set up the VM.
    VmSetup(std::io::Error),
}

impl VmError {
    /// The static description of the operation that failed.
    pub open spec fn spec_message(self) -> Seq<char> {
        match self {
            VmError::VmCreate(_) => "Failed to create Vm"@,
            VmError::VmSetup(_) => "Failed to setup Vm"@,
        }
    }

    /// The wrapped raw failure. Both variants carry one.
    pub open spec fn spec_source(self) -> std::io::Error {
        match self {
            VmError::VmCreate(e) => e,
            VmError::VmSetup(e) => e,
        }
    }

    /// Describes which VM lifecycle operation failed.
    pub fn message(&self) -> (r: &'static str)
        ensures
            r@ == self.spec_message(),
    {
        match self {
            VmError::VmCreate(_) => "Failed to create Vm",
            VmError::VmSetup(_) => "Failed to setup Vm",
        }
    }

    /// The underlying raw failure, preserved losslessly.
    pub fn source(&self) -> (r: &std::io::Error)
        ensures
            *r == self.spec_source(),
    {
        match self {
            VmError::VmCreate(e) => e,
            VmError::VmSetup(e) => e,
        }
    }
}

/// Situated hypervisor error: the only error type exposed across the public
/// interface boundary. Each variant identifies which operation failed;
/// variants for failures of native calls wrap the low-level error, and the
/// two pure logic errors (`IncompatibleApiVersion`, `UnsupportedVmType`)
/// stand alone.
#[derive(Debug)]
pub enum HypervisorError {
    /// The hypervisor availability check failed.
    HypervisorAvailableCheck(Error),
    /// Creating the hypervisor failed.
    HypervisorCreate(Error),
    /// Creating a VM failed.
    VmCreate(VmError),
    /// Setting up a VM failed.
    VmSetup(VmError),
    /// Fetching the API version failed.
    GetApiVersion(Error),
    /// Fetching the supported CPU identification leaves failed.
    GetCpuId(Error),
    /// Fetching the list of supported model-specific registers failed.
    GetMsrList(Error),
    /// The backend's API version is not compatible: a pure logic error with
    /// no underlying cause.
    IncompatibleApiVersion,
    /// Checking extensions failed.
    CheckExtensions(Error),
    /// Retrieving the confidential-computing capabilities failed.
    TdxCapabilities(Error),
    /// Setting a partition property failed.
    SetPartitionProperty(Error),
    /// Running on an unsupported CPU.
    UnsupportedCpu(Error),
    /// A VM of an unsupported type was requested: a pure logic error raised
    /// by validation before any native call is attempted.
    UnsupportedVmType,
}

impl HypervisorError {
    /// The static description of the operation that failed.
    pub open spec fn spec_message(self) -> Seq<char> {
        match self {
            HypervisorError::HypervisorAvailableCheck(_) => "Failed to check availability of the hypervisor"@,
            HypervisorError::HypervisorCreate(_) => "Failed to create the hypervisor"@,
            HypervisorError::VmCreate(_) => "Failed to create Vm"@,
            HypervisorError::VmSetup(_) => "Failed to setup Vm"@,
            HypervisorError::GetApiVersion(_) => "Failed to get API Version"@,
            HypervisorError::GetCpuId(_) => "Failed to get cpuid"@,
            HypervisorError::GetMsrList(_) => "Failed to get the list of supported MSRs"@,
            HypervisorError::IncompatibleApiVersion => "Incompatible API version"@,
            HypervisorError::CheckExtensions(_) => "Checking extensions"@,
            HypervisorError::TdxCapabilities(_) => "Failed to retrieve TDX capabilities"@,
            HypervisorError::SetPartitionProperty(_) => "Failed to set partition property"@,
            HypervisorError::UnsupportedCpu(_) => "Unsupported CPU"@,
            HypervisorError::UnsupportedVmType => "Unsupported VmType"@,
        }
    }

    /// The wrapped low-level operation error, where this variant carries
    /// one.
    pub open spec fn spec_op_source(self) -> Option<Error> {
        match self {
            HypervisorError::HypervisorAvailableCheck(e) => Some(e),
            HypervisorError::HypervisorCreate(e) => Some(e),
            HypervisorError::GetApiVersion(e) => Some(e),
            HypervisorError::GetCpuId(e) => Some(e),
            HypervisorError::GetMsrList(e) => Some(e),
            HypervisorError::CheckExtensions(e) => Some(e),
            HypervisorError::TdxCapabilities(e) => Some(e),
            HypervisorError::SetPartitionProperty(e) => Some(e),
            HypervisorError::UnsupportedCpu(e) => Some(e),
            _ => None,
        }
    }

    /// The wrapped low-level VM lifecycle error, where this variant carries
    /// one.
    pub open spec fn spec_vm_source(self) -> Option<VmError> {
        match self {
            HypervisorError::VmCreate(e) => Some(e),
            HypervisorError::VmSetup(e) => Some(e),
            _ => None,
        }
    }

    /// Whether this variant is a pure logic error of this layer, with no
    /// wrapped cause.
    pub open spec fn is_logic_error(self) -> bool {
        self is IncompatibleApiVersion || self is UnsupportedVmType
    }

    /// Describes which operation failed.
    pub fn message(&self) -> (r: &'static str)
        ensures
            r@ == self.spec_message(),
    {
        match self {
            HypervisorError::HypervisorAvailableCheck(_) => "Failed to check availability of the hypervisor",
            HypervisorError::HypervisorCreate(_) => "Failed to create the hypervisor",
            HypervisorError::VmCreate(_) => "Failed to create Vm",
            HypervisorError::VmSetup(_) => "Failed to setup Vm",
            HypervisorError::GetApiVersion(_) => "Failed to get API Version",
            HypervisorError::GetCpuId(_) => "Failed to get cpuid",
            HypervisorError::GetMsrList(_) => "Failed to get the list of supported MSRs",
            HypervisorError::IncompatibleApiVersion => "Incompatible API version",
            HypervisorError::CheckExtensions(_) => "Checking extensions",
            HypervisorError::TdxCapabilities(_) => "Failed to retrieve TDX capabilities",
            HypervisorError::SetPartitionProperty(_) => "Failed to set partition property",
            HypervisorError::UnsupportedCpu(_) => "Unsupported CPU",
            HypervisorError::UnsupportedVmType => "Unsupported VmType",
        }
    }

    /// The wrapped low-level operation error, preserved losslessly where
    /// one exists; its own `source` continues the causal chain down to the
    /// raw failure.
    pub fn op_source(&self) -> (r: Option<&Error>)
        ensures
            match r {
                Some(e) => self.spec_op_source() == Some(*e),
                None => self.spec_op_source() is None,
            },
    {
        match self {
            HypervisorError::HypervisorAvailableCheck(e) => Some(e),
            HypervisorError::HypervisorCreate(e) => Some(e),
            HypervisorError::GetApiVersion(e) => Some(e),
            HypervisorError::GetCpuId(e) => Some(e),
            HypervisorError::GetMsrList(e) => Some(e),
            HypervisorError::CheckExtensions(e) => Some(e),
            HypervisorError::TdxCapabilities(e) => Some(e),
            HypervisorError::SetPartitionProperty(e) => Some(e),
            HypervisorError::UnsupportedCpu(e) => Some(e),
            _ => None,
        }
    }

    /// The wrapped low-level VM lifecycle error, preserved losslessly where
    /// one exists; its own `source` continues the causal chain down to the
    /// raw failure.
    pub fn vm_source(&self) -> (r: Option<&VmError>)
        ensures
            match r {
                Some(e) => self.spec_vm_source() == Some(*e),
                None => self.spec_vm_source() is None,
            },
    {
        match self {
            HypervisorError::VmCreate(e) => Some(e),
            HypervisorError::VmSetup(e) => Some(e),
            _ => None,
        }
    }
}

/// The preservation law for the operation channel: wrapping a low-level
/// cause in any situated variant keeps it intact, and the source accessor
/// recovers the very value that was wrapped. Variants without a cause are
/// exactly the two pure logic errors.
pub proof fn lemma_op_cause_preserved(e: Error)
    ensures
        HypervisorError::HypervisorAvailableCheck(e).spec_op_source() == Some(e),
        HypervisorError::HypervisorCreate(e).spec_op_source() == Some(e),
        HypervisorError::GetApiVersion(e).spec_op_source() == Some(e),
        HypervisorError::GetCpuId(e).spec_op_source() == Some(e),
        HypervisorError::GetMsrList(e).spec_op_source() == Some(e),
        HypervisorError::CheckExtensions(e).spec_op_source() == Some(e),
        HypervisorError::TdxCapabilities(e).spec_op_source() == Some(e),
        HypervisorError::SetPartitionProperty(e).spec_op_source() == Some(e),
        HypervisorError::UnsupportedCpu(e).spec_op_source() == Some(e),
{
}

/// The preservation law for the VM lifecycle channel.
pub proof fn lemma_vm_cause_preserved(e: VmError)
    ensures
        HypervisorError::VmCreate(e).spec_vm_source() == Some(e),
        HypervisorError::VmSetup(e).spec_vm_source() == Some(e),
{
}

/// Every situated error either wraps a cause in exactly one of the two
/// low-level channels or is one of the two pure logic errors: no failure is
/// ever silently downgraded.
pub proof fn lemma_error_taxonomy(e: HypervisorError)
    ensures
        e.is_logic_error() <==> (e.spec_op_source() is None && e.spec_vm_source() is None),
        !(e.spec_op_source() is Some && e.spec_vm_source() is Some),
{
}

/// Result type of the fallible hypervisor operations.
pub type HvResult<T> = core::result::Result<T, HypervisorError>;

/// Capabilities reported by a backend with confidential-computing support:
/// which attribute and extended-feature bits the hardware fixes to zero or
/// to one for a confidential guest.
#[derive(Clone, Copy, Debug, PartialEq, Eq, Structural)]
pub struct TdxCapabilities {
    pub attrs_fixed0: u64,
    pub attrs_fixed1: u64,
    pub xfam_fixed0: u64,
    pub xfam_fixed1: u64,
}

/// The situated errors a VM creation call is allowed to fail with: the VM
/// creation and setup failures, and the pure validation error for an
/// unsupported VM type.
pub open spec fn is_vm_creation_error(e: HypervisorError) -> bool {
    ||| e is VmCreate
    ||| e is VmSetup
    ||| e is UnsupportedVmType
}

/// The polymorphic hypervisor interface.
///
/// One instance per process represents the active backend. Instances are
/// shared across threads, so every method takes `&self`; the read-only
/// queries are pure functions of the instance, which the contracts state by
/// tying each result to a spec-level view of `self`.
///
/// The spec members describe the instance. Each has a default body, so a
/// backend written outside the verifier implements only the executable
/// methods; a backend verified against this trait overrides the spec
/// members its method contracts depend on, since the defaults leave the
/// described values arbitrary (and the optional capabilities absent).
pub trait Hypervisor: Send + Sync {
    /// The backend-specific VM object. Creation hands it out behind an
    /// `Arc`, so the backend and the orchestration layer can hold it
    /// independently and the native resource is released exactly once,
    /// when the last holder drops its reference.
    type Vm;

    /// The backend tag, fixed at construction.
    open spec fn kind_spec(&self) -> HypervisorKind {
        vstd::pervasive::arbitrary()
    }

    /// The hard upper bound on vCPUs, fixed per backend instance.
    open spec fn max_vcpus_spec(&self) -> u32 {
        vstd::pervasive::arbitrary()
    }

    /// The CPU feature leaves this backend exposes to guests, fixed per
    /// backend instance.
    open spec fn supported_cpuid_spec(&self) -> Seq<CpuIdEntry> {
        vstd::pervasive::arbitrary()
    }

    /// The maximum intermediate-physical-address width the host supports,
    /// fixed per backend instance.
    open spec fn host_ipa_limit_spec(&self) -> i32 {
        vstd::pervasive::arbitrary()
    }

    /// Whether this backend implements the confidential-computing
    /// capability query. Calling `tdx_capabilities` on a backend where this
    /// is false is a caller bug, not a recoverable condition.
    open spec fn tdx_supported(&self) -> bool {
        false
    }

    /// The confidential-computing capabilities this backend reports, fixed
    /// per backend instance; meaningful only where `tdx_supported` holds.
    open spec fn tdx_caps_spec(&self) -> TdxCapabilities {
        vstd::pervasive::arbitrary()
    }

    /// Whether this backend implements the guest debug hardware breakpoint
    /// query. Calling `get_guest_debug_hw_bps` on a backend where this is
    /// false is a caller bug, not a recoverable condition.
    open spec fn guest_debug_supported(&self) -> bool {
        false
    }

    /// The number of hardware breakpoint registers this backend makes
    /// available for guest debugging, fixed per backend instance;
    /// meaningful only where `guest_debug_supported` holds.
    open spec fn guest_debug_hw_bps_spec(&self) -> usize {
        vstd::pervasive::arbitrary()
    }

    /// The leaf-0 identification registers of the host CPU as this backend
    /// reads them: a fixed property of the machine the instance runs on.
    open spec fn cpuid_leaf0_spec(&self) -> CpuidLeaf {
        vstd::pervasive::arbitrary()
    }

    /// Returns the type of the hypervisor. Never fails, and always returns
    /// the same value on the same instance.
    fn hypervisor_type(&self) -> (r: HypervisorKind)
        ensures
            r == self.kind_spec(),
    ;

    /// Create a VM using the underlying hypervisor and return a shared
    /// handle to it, whose lifetime is independent of this instance. The
    /// backend validates the configuration against its own limits and
    /// performs the native creation call; on failure the error is one of
    /// the VM creation errors, wrapping the native cause where one exists.
    fn create_vm(&self, config: HypervisorVmConfig) -> (r: HvResult<Arc<Self::Vm>>)
        ensures
            r matches Err(e) ==> is_vm_creation_error(e),
    ;

    /// Get the supported CPU identification leaves: on success exactly the
    /// entries this backend exposes, on failure the matching situated
    /// error.
    fn get_supported_cpuid(&self) -> (r: HvResult<Vec<CpuIdEntry>>)
        ensures
            r matches Ok(v) ==> v@ == self.supported_cpuid_spec(),
            r matches Err(e) ==> e is GetCpuId,
    ;

    /// Check the native extensions this backend requires. The default
    /// succeeds unconditionally; a backend overrides it to fail with the
    /// extension-check situated error when a mandatory native capability is
    /// absent. Orchestration code calls this before any VM is created.
    fn check_required_extensions(&self) -> (r: HvResult<()>)
        ensures
            r matches Err(e) ==> e is CheckExtensions,
        default_ensures
            r is Ok,
    {
        Ok(())
    }

    /// Retrieve the maximum intermediate-physical-address width the host
    /// supports, used to size guest physical memory. Never fails.
    fn get_host_ipa_limit(&self) -> (r: i32)
        ensures
            r == self.host_ipa_limit_spec(),
    ;

    /// Retrieve the confidential-computing capabilities. Only a backend
    /// that reports support implements a reachable body; the precondition
    /// makes an unguarded call on any other backend a verification-time
    /// caller bug rather than a runtime failure.
    fn tdx_capabilities(&self) -> (r: HvResult<TdxCapabilities>)
        requires
            self.tdx_supported(),
        ensures
            r matches Ok(c) ==> c == self.tdx_caps_spec(),
            r matches Err(e) ==> e is TdxCapabilities,
    ;

    /// Get the number of hardware breakpoint registers available for guest
    /// debugging. Only a backend that reports support implements a
    /// reachable body; the precondition makes an unguarded call on any
    /// other backend a verification-time caller bug rather than a runtime
    /// failure.
    fn get_guest_debug_hw_bps(&self) -> (r: usize)
        requires
            self.guest_debug_supported(),
        ensures
            r == self.guest_debug_hw_bps_spec(),
    ;

    /// Get the maximum number of vCPUs this backend supports. Never fails;
    /// callers use it to validate a configuration before `create_vm`.
    fn get_max_vcpus(&self) -> (r: u32)
        ensures
            r == self.max_vcpus_spec(),
    ;

    /// Read the raw leaf-0 identification registers. The instruction that
    /// produces them is an unsafe hardware operation, so each backend
    /// supplies this read; everything derived from it is verified here.
    fn read_cpuid_leaf0(&self) -> (r: CpuidLeaf)
        ensures
            r == self.cpuid_leaf0_spec(),
    ;

    /// Determine the CPU vendor. The default classifies the leaf-0
    /// registers with [`cpu_vendor_from_leaf0`]; a backend may override it
    /// only with a source that agrees on the same registers.
    fn get_cpu_vendor(&self) -> (r: CpuVendor)
        ensures
            r == vendor_of_leaf0(
                self.cpuid_leaf0_spec().ebx,
                self.cpuid_leaf0_spec().ecx,
                self.cpuid_leaf0_spec().edx,
            ),
    {
        let leaf = self.read_cpuid_leaf0();
        cpu_vendor_from_leaf0(leaf)
    }
}

/// The identity query is idempotent: two calls on the same backend instance
/// return the same tag.
pub fn hypervisor_type_twice<H: Hypervisor>(h: &H) -> (r: (HypervisorKind, HypervisorKind))
    ensures
        r.0 == r.1,
        r.0 == h.kind_spec(),
{
    let first = h.hypervisor_type();
    let second = h.hypervisor_type();
    (first, second)
}

} // verus!
