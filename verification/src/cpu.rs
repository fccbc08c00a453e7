//! CPU vendor detection from the leaf-0 identification instruction.
//!
//! Executing the identification instruction itself is an unsafe hardware
//! operation that lives outside this library; a backend hands the four raw
//! registers in, and the classification here is a pure, total function of
//! those values.

use vstd::prelude::*;

verus! {

/// Leaf-0 EBX value whose bytes spell the start of "GenuineIntel".
pub const VENDOR_EBX_INTEL: u32 = 0x756e_6547;
/// Leaf-0 ECX value for the Intel vendor string.
pub const VENDOR_ECX_INTEL: u32 = 0x6c65_746e;
/// Leaf-0 EDX value for the Intel vendor string.
pub const VENDOR_EDX_INTEL: u32 = 0x4965_6e69;

/// Leaf-0 EBX value whose bytes spell the start of "AuthenticAMD".
pub const VENDOR_EBX_AMD: u32 = 0x6874_7541;
/// Leaf-0 ECX value for the AMD vendor string.
pub const VENDOR_ECX_AMD: u32 = 0x444d_4163;
/// Leaf-0 EDX value for the AMD vendor string.
pub const VENDOR_EDX_AMD: u32 = 0x6974_6e65;

/// CPU vendor classification derived from the leaf-0 identification
/// registers. Never persisted; recomputed on demand.
#[derive(Clone, Copy, Debug, PartialEq, Eq, Structural)]
pub enum CpuVendor {
    /// Any vendor string other than the two recognized ones.
    Unknown,
    /// The "GenuineIntel" vendor string.
    Intel,
    /// The "AuthenticAMD" vendor string.
    AMD,
}

impl Default for CpuVendor {
    /// The fallback classification for unrecognized vendor strings.
    fn default() -> (r: CpuVendor)
        ensures
            r == CpuVendor::Unknown,
    {
        CpuVendor::Unknown
    }
}

/// The four 32-bit registers returned by the CPU identification instruction
/// for one input leaf.
#[derive(Clone, Copy, Debug, PartialEq, Eq, Structural)]
pub struct CpuidLeaf {
    pub eax: u32,
    pub ebx: u32,
    pub ecx: u32,
    pub edx: u32,
}

/// One CPU feature leaf a backend exposes to its guests.
#[derive(Clone, Copy, Debug, PartialEq, Eq, Structural)]
pub struct CpuIdEntry {
    /// The leaf (function) number.
    pub function: u32,
    /// The sub-leaf index, where the leaf has one.
    pub index: u32,
    /// Backend-interpreted flags for this entry.
    pub flags: u32,
    pub eax: u32,
    pub ebx: u32,
    pub ecx: u32,
    pub edx: u32,
}

/// What the leaf-0 register values B, C, D classify as: the two recognized
/// vendor triples map to their vendors, everything else to `Unknown`.
pub open spec fn vendor_of_leaf0(ebx: u32, ecx: u32, edx: u32) -> CpuVendor {
    if ebx == VENDOR_EBX_INTEL && ecx == VENDOR_ECX_INTEL && edx == VENDOR_EDX_INTEL {
        CpuVendor::Intel
    } else if ebx == VENDOR_EBX_AMD && ecx == VENDOR_ECX_AMD && edx == VENDOR_EDX_AMD {
        CpuVendor::AMD
    } else {
        CpuVendor::Unknown
    }
}

/// Classify the CPU vendor from the raw leaf-0 registers.
///
/// Pure and total: no side effects, no failure mode. A future vendor whose
/// string is not recognized falls through to `CpuVendor::Unknown`.
pub fn cpu_vendor_from_leaf0(leaf: CpuidLeaf) -> (r: CpuVendor)
    ensures
        r == vendor_of_leaf0(leaf.ebx, leaf.ecx, leaf.edx),
{
    if leaf.ebx == VENDOR_EBX_INTEL && leaf.ecx == VENDOR_ECX_INTEL && leaf.edx == VENDOR_EDX_INTEL
    {
        // Vendor string GenuineIntel
        CpuVendor::Intel
    } else if leaf.ebx == VENDOR_EBX_AMD && leaf.ecx == VENDOR_ECX_AMD && leaf.edx == VENDOR_EDX_AMD
    {
        // Vendor string AuthenticAMD
        CpuVendor::AMD
    } else {
        // Not known yet; the corresponding manufacturer manual carries the
        // necessary vendor string.
        CpuVendor::Unknown
    }
}

/// The classification law: the Intel triple yields `Intel`, the AMD triple
/// yields `AMD`, and every other register triple yields `Unknown`.
pub proof fn lemma_vendor_classification(ebx: u32, ecx: u32, edx: u32)
    ensures
        (ebx == VENDOR_EBX_INTEL && ecx == VENDOR_ECX_INTEL && edx == VENDOR_EDX_INTEL)
            ==> vendor_of_leaf0(ebx, ecx, edx) == CpuVendor::Intel,
        (ebx == VENDOR_EBX_AMD && ecx == VENDOR_ECX_AMD && edx == VENDOR_EDX_AMD)
            ==> vendor_of_leaf0(ebx, ecx, edx) == CpuVendor::AMD,
        !(ebx == VENDOR_EBX_INTEL && ecx == VENDOR_ECX_INTEL && edx == VENDOR_EDX_INTEL)
            && !(ebx == VENDOR_EBX_AMD && ecx == VENDOR_ECX_AMD && edx == VENDOR_EDX_AMD)
            ==> vendor_of_leaf0(ebx, ecx, edx) == CpuVendor::Unknown,
{
}

} // verus!
