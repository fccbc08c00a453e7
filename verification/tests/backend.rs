use std::io;
use std::sync::atomic::{AtomicU64, AtomicUsize, Ordering};
use std::sync::Arc;

use hypervisor::cpu::{CpuIdEntry, CpuVendor, CpuidLeaf};
use hypervisor::hypervisor::{
    hypervisor_type_twice, Error, HvResult, Hypervisor, HypervisorError, TdxCapabilities, VmError,
};
use hypervisor::{HypervisorKind, HypervisorVmConfig};

const INTEL_LEAF0: CpuidLeaf = CpuidLeaf {
    eax: 0xd,
    ebx: 0x756e_6547,
    ecx: 0x6c65_746e,
    edx: 0x4965_6e69,
};

const AMD_LEAF0: CpuidLeaf = CpuidLeaf {
    eax: 0xd,
    ebx: 0x6874_7541,
    ecx: 0x444d_4163,
    edx: 0x6974_6e65,
};

fn config(vcpus: u32) -> HypervisorVmConfig {
    HypervisorVmConfig {
        memory_size: 512 << 20,
        vcpu_count: vcpus,
        features: 0,
    }
}

/// A VM object whose drop stands for releasing the underlying native
/// resource; the shared counter observes how often that happens.
#[derive(Debug)]
struct MockVm {
    resource_id: u64,
    releases: Arc<AtomicUsize>,
}

impl Drop for MockVm {
    fn drop(&mut self) {
        self.releases.fetch_add(1, Ordering::SeqCst);
    }
}

/// A backend that validates the vCPU count against its own maximum and
/// hands out mock VM objects with resource ids from its own range.
struct MockBackend {
    kind: HypervisorKind,
    max_vcpus: u32,
    leaf0: CpuidLeaf,
    resource_base: u64,
    next_resource: AtomicU64,
    releases: Arc<AtomicUsize>,
}

impl MockBackend {
    fn new(kind: HypervisorKind, max_vcpus: u32, leaf0: CpuidLeaf, resource_base: u64) -> Self {
        MockBackend {
            kind,
            max_vcpus,
            leaf0,
            resource_base,
            next_resource: AtomicU64::new(0),
            releases: Arc::new(AtomicUsize::new(0)),
        }
    }
}

impl Hypervisor for MockBackend {
    type Vm = MockVm;

    fn hypervisor_type(&self) -> HypervisorKind {
        self.kind
    }

    fn create_vm(&self, config: HypervisorVmConfig) -> HvResult<Arc<MockVm>> {
        if config.vcpu_count > self.max_vcpus {
            return Err(HypervisorError::VmCreate(VmError::VmCreate(io::Error::new(
                io::ErrorKind::InvalidInput,
                "vcpu count exceeds backend maximum",
            ))));
        }
        let offset = self.next_resource.fetch_add(1, Ordering::SeqCst);
        Ok(Arc::new(MockVm {
            resource_id: self.resource_base + offset,
            releases: Arc::clone(&self.releases),
        }))
    }

    fn get_supported_cpuid(&self) -> HvResult<Vec<CpuIdEntry>> {
        Ok(vec![CpuIdEntry {
            function: 0,
            index: 0,
            flags: 0,
            eax: self.leaf0.eax,
            ebx: self.leaf0.ebx,
            ecx: self.leaf0.ecx,
            edx: self.leaf0.edx,
        }])
    }

    fn get_host_ipa_limit(&self) -> i32 {
        40
    }

    fn tdx_capabilities(&self) -> HvResult<TdxCapabilities> {
        panic!("tdx_capabilities is not implemented for this backend")
    }

    fn get_guest_debug_hw_bps(&self) -> usize {
        panic!("get_guest_debug_hw_bps is not implemented for this backend")
    }

    fn get_max_vcpus(&self) -> u32 {
        self.max_vcpus
    }

    fn read_cpuid_leaf0(&self) -> CpuidLeaf {
        self.leaf0
    }
}

/// A backend that overrides the extension check to fail with a configured
/// low-level cause.
struct NoExtensionsBackend;

impl Hypervisor for NoExtensionsBackend {
    type Vm = MockVm;

    fn hypervisor_type(&self) -> HypervisorKind {
        HypervisorKind::Mshv
    }

    fn create_vm(&self, _config: HypervisorVmConfig) -> HvResult<Arc<MockVm>> {
        Err(HypervisorError::UnsupportedVmType)
    }

    fn get_supported_cpuid(&self) -> HvResult<Vec<CpuIdEntry>> {
        Ok(vec![])
    }

    fn check_required_extensions(&self) -> HvResult<()> {
        Err(HypervisorError::CheckExtensions(Error::CheckExtensions(
            io::Error::new(io::ErrorKind::Unsupported, "mandatory capability absent"),
        )))
    }

    fn get_host_ipa_limit(&self) -> i32 {
        48
    }

    fn tdx_capabilities(&self) -> HvResult<TdxCapabilities> {
        panic!("tdx_capabilities is not implemented for this backend")
    }

    fn get_guest_debug_hw_bps(&self) -> usize {
        panic!("get_guest_debug_hw_bps is not implemented for this backend")
    }

    fn get_max_vcpus(&self) -> u32 {
        1
    }

    fn read_cpuid_leaf0(&self) -> CpuidLeaf {
        CpuidLeaf {
            eax: 0,
            ebx: 0,
            ecx: 0,
            edx: 0,
        }
    }
}

#[test]
fn hypervisor_type_is_idempotent() {
    let backend = MockBackend::new(HypervisorKind::Kvm, 255, INTEL_LEAF0, 100);
    let first = backend.hypervisor_type();
    for _ in 0..8 {
        assert_eq!(backend.hypervisor_type(), first);
    }
    let (a, b) = hypervisor_type_twice(&backend);
    assert_eq!(a, b);
    assert_eq!(a, HypervisorKind::Kvm);
}

#[test]
fn default_extension_check_succeeds() {
    let backend = MockBackend::new(HypervisorKind::Kvm, 255, INTEL_LEAF0, 100);
    assert!(backend.check_required_extensions().is_ok());
}

#[test]
fn overridden_extension_check_reports_cause() {
    let backend = NoExtensionsBackend;
    let err = backend.check_required_extensions().unwrap_err();
    let low = match &err {
        HypervisorError::CheckExtensions(low) => low,
        other => panic!("expected the extension-check error, got {:?}", other),
    };
    assert!(matches!(low, Error::CheckExtensions(_)));
    let raw = low.source().expect("a wrapped raw cause");
    assert_eq!(raw.to_string(), "mandatory capability absent");
}

#[test]
fn create_vm_handles_do_not_alias() {
    let a = MockBackend::new(HypervisorKind::Kvm, 255, INTEL_LEAF0, 1_000);
    let b = MockBackend::new(HypervisorKind::Kvm, 255, INTEL_LEAF0, 2_000);
    let va = a.create_vm(config(4)).expect("creation on backend a");
    let vb = b.create_vm(config(4)).expect("creation on backend b");
    assert!(!Arc::ptr_eq(&va, &vb));
    assert_ne!(va.resource_id, vb.resource_id);
}

#[test]
fn vm_handle_released_exactly_once() {
    let backend = MockBackend::new(HypervisorKind::Kvm, 255, INTEL_LEAF0, 100);
    let releases = Arc::clone(&backend.releases);
    let handle = backend.create_vm(config(2)).expect("creation");
    let second_holder = Arc::clone(&handle);
    let third_holder = Arc::clone(&second_holder);
    drop(handle);
    drop(third_holder);
    assert_eq!(releases.load(Ordering::SeqCst), 0);
    drop(second_holder);
    assert_eq!(releases.load(Ordering::SeqCst), 1);
}

#[test]
fn extra_holder_does_not_double_release() {
    let backend = MockBackend::new(HypervisorKind::Kvm, 255, INTEL_LEAF0, 100);
    let releases = Arc::clone(&backend.releases);
    let first = backend.create_vm(config(2)).expect("first creation");
    let duplicate = Arc::clone(&first);
    drop(first);
    drop(duplicate);
    assert_eq!(releases.load(Ordering::SeqCst), 1);
    // A later VM on the same backend releases its own resource once more,
    // never the already-released one twice.
    let second = backend.create_vm(config(2)).expect("second creation");
    drop(second);
    assert_eq!(releases.load(Ordering::SeqCst), 2);
}

#[test]
fn create_vm_rejects_excess_vcpus() {
    let backend = MockBackend::new(HypervisorKind::Kvm, 255, INTEL_LEAF0, 100);
    assert_eq!(backend.get_max_vcpus(), 255);
    let err = backend.create_vm(config(256)).unwrap_err();
    let low = match &err {
        HypervisorError::VmCreate(low) => low,
        other => panic!("expected the VM-create error, got {:?}", other),
    };
    assert!(matches!(low, VmError::VmCreate(_)));
    assert_eq!(low.source().to_string(), "vcpu count exceeds backend maximum");
    // The boundary itself is accepted.
    assert!(backend.create_vm(config(255)).is_ok());
}

#[test]
fn default_vendor_detection_classifies_backends() {
    let intel = MockBackend::new(HypervisorKind::Kvm, 255, INTEL_LEAF0, 100);
    assert_eq!(intel.get_cpu_vendor(), CpuVendor::Intel);
    let amd = MockBackend::new(HypervisorKind::Kvm, 255, AMD_LEAF0, 100);
    assert_eq!(amd.get_cpu_vendor(), CpuVendor::AMD);
    let other = MockBackend::new(
        HypervisorKind::Kvm,
        255,
        CpuidLeaf {
            eax: 0,
            ebx: 1,
            ecx: 2,
            edx: 3,
        },
        100,
    );
    assert_eq!(other.get_cpu_vendor(), CpuVendor::Unknown);
}

#[test]
fn capability_queries_report_backend_values() {
    let backend = MockBackend::new(HypervisorKind::Kvm, 255, INTEL_LEAF0, 100);
    assert_eq!(backend.get_host_ipa_limit(), 40);
    let entries = backend.get_supported_cpuid().expect("cpuid entries");
    assert_eq!(entries.len(), 1);
    assert_eq!(entries[0].ebx, 0x756e_6547);
}
