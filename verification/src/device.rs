//! Error channel for device attribute access.
//!
//! Device-model code reads and writes single low-level device attributes
//! through the active backend far more often than it drives VM lifecycle
//! operations, so its errors live in a taxonomy of their own: callers that
//! only do device attribute access never match against VM-lifecycle
//! variants that cannot occur there.

use vstd::prelude::*;

verus! {

/// Low-level device attribute error: the raw failure of the underlying
/// native call, tagged with the operation that failed.
#[derive(Debug)]
pub enum DeviceError {
    /// Failed to set a device attribute.
    SetDeviceAttribute(std::io::Error),
    /// Failed to get a device attribute.
    GetDeviceAttribute(std::io::Error),
}

impl DeviceError {
    /// The static description of the operation that failed.
    pub open spec fn spec_message(self) -> Seq<char> {
        match self {
            DeviceError::SetDeviceAttribute(_) => "Failed to set device attribute"@,
            DeviceError::GetDeviceAttribute(_) => "Failed to get device attribute"@,
        }
    }

    /// The wrapped raw failure. Both variants carry one, and it is returned
    /// exactly as it was wrapped: no cause is ever discarded or rephrased.
    pub open spec fn spec_source(self) -> std::io::Error {
        match self {
            DeviceError::SetDeviceAttribute(e) => e,
            DeviceError::GetDeviceAttribute(e) => e,
        }
    }

    /// Describes which device attribute operation failed.
    pub fn message(&self) -> (r: &'static str)
        ensures
            r@ == self.spec_message(),
    {
        match self {
            DeviceError::SetDeviceAttribute(_) => "Failed to set device attribute",
            DeviceError::GetDeviceAttribute(_) => "Failed to get device attribute",
        }
    }

    /// The underlying raw failure, preserved losslessly.
    pub fn source(&self) -> (r: &std::io::Error)
        ensures
            *r == self.spec_source(),
    {
        match self {
            DeviceError::SetDeviceAttribute(e) => e,
            DeviceError::GetDeviceAttribute(e) => e,
        }
    }
}

/// Situated device attribute error: the only device-error type exposed
/// across the public interface boundary. Each variant wraps the low-level
/// device error of the matching kind.
#[derive(Debug)]
pub enum HypervisorDeviceError {
    /// Setting a device attribute failed.
    SetDeviceAttribute(DeviceError),
    /// Getting a device attribute failed.
    GetDeviceAttribute(DeviceError),
}

impl HypervisorDeviceError {
    /// The static description of the operation that failed.
    pub open spec fn spec_message(self) -> Seq<char> {
        match self {
            HypervisorDeviceError::SetDeviceAttribute(_) => "Failed to set device attribute"@,
            HypervisorDeviceError::GetDeviceAttribute(_) => "Failed to get device attribute"@,
        }
    }

    /// The wrapped low-level device error.
    pub open spec fn spec_source(self) -> DeviceError {
        match self {
            HypervisorDeviceError::SetDeviceAttribute(e) => e,
            HypervisorDeviceError::GetDeviceAttribute(e) => e,
        }
    }

    /// Describes which device attribute operation failed.
    pub fn message(&self) -> (r: &'static str)
        ensures
            r@ == self.spec_message(),
    {
        match self {
            HypervisorDeviceError::SetDeviceAttribute(_) => "Failed to set device attribute",
            HypervisorDeviceError::GetDeviceAttribute(_) => "Failed to get device attribute",
        }
    }

    /// The wrapped low-level device error, preserved losslessly; its own
    /// `source` continues the causal chain down to the raw failure.
    pub fn source(&self) -> (r: &DeviceError)
        ensures
            *r == self.spec_source(),
    {
        match self {
            HypervisorDeviceError::SetDeviceAttribute(e) => e,
            HypervisorDeviceError::GetDeviceAttribute(e) => e,
        }
    }
}

/// The preservation law for the device channel: wrapping a low-level cause
/// in either situated variant keeps it intact, and the source accessors
/// recover the very value that was wrapped.
pub proof fn lemma_device_cause_preserved(e: DeviceError)
    ensures
        HypervisorDeviceError::SetDeviceAttribute(e).spec_source() == e,
        HypervisorDeviceError::GetDeviceAttribute(e).spec_source() == e,
{
}

} // verus!
