use hypervisor::cpu::{cpu_vendor_from_leaf0, CpuVendor, CpuidLeaf};

fn leaf(ebx: u32, ecx: u32, edx: u32) -> CpuidLeaf {
    CpuidLeaf {
        eax: 0,
        ebx,
        ecx,
        edx,
    }
}

#[test]
fn intel_triple_classifies_as_intel() {
    let v = cpu_vendor_from_leaf0(leaf(0x756e_6547, 0x6c65_746e, 0x4965_6e69));
    assert_eq!(v, CpuVendor::Intel);
}

#[test]
fn amd_triple_classifies_as_amd() {
    let v = cpu_vendor_from_leaf0(leaf(0x6874_7541, 0x444d_4163, 0x6974_6e65));
    assert_eq!(v, CpuVendor::AMD);
}

#[test]
fn unknown_triple_classifies_as_unknown() {
    let v = cpu_vendor_from_leaf0(leaf(0xdead_beef, 0x1234_5678, 0x9abc_def0));
    assert_eq!(v, CpuVendor::Unknown);
}

#[test]
fn near_miss_triples_classify_as_unknown() {
    // Two of the three Intel registers with one AMD register, and vice
    // versa: only the exact triples are recognized.
    let v = cpu_vendor_from_leaf0(leaf(0x756e_6547, 0x6c65_746e, 0x6974_6e65));
    assert_eq!(v, CpuVendor::Unknown);
    let v = cpu_vendor_from_leaf0(leaf(0x6874_7541, 0x444d_4163, 0x4965_6e69));
    assert_eq!(v, CpuVendor::Unknown);
}

#[test]
fn default_vendor_is_unknown() {
    assert_eq!(CpuVendor::default(), CpuVendor::Unknown);
}
