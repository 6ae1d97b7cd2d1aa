//! Error taxonomy of the bridge. Every driver-level failure surfaces
//! immediately as a typed value; nothing is retried internally.

use vstd::prelude::*;

use crate::sharing::AdapterBackend;

verus! {

/// Why a bridge device could not be created.
#[derive(Clone, PartialEq, Eq, Debug)]
pub enum DeviceCreateError {
    /// The graphics API failed to create the device; carries its message.
    RequestDeviceError(String),
    /// The accelerator cannot construct a device bound to this physical GPU.
    OidnUnsupported,
    /// GPU matched, but no sharing mode is supported by both sides.
    OidnImportUnsupported,
    /// A required extension or API version is absent.
    MissingFeature,
    /// The adapter's backend is neither DX12 nor Vulkan.
    UnsupportedBackend(AdapterBackend),
}

impl DeviceCreateError {
    /// A fixed description of the error variant.
    pub fn message(&self) -> (m: &'static str)
        ensures
            self is RequestDeviceError ==> m@ == "The graphics API could not create a device"@,
            self is OidnUnsupported ==> m@ == "OIDN could not create a device for this Adapter (does this adapter support OIDN?)"@,
            self is OidnImportUnsupported ==> m@ == "OIDN does not support the required import method"@,
            self is MissingFeature ==> m@ == "A required feature is missing"@,
            self is UnsupportedBackend ==> m@ == "The backend is not supported."@,
    {
        match self {
            DeviceCreateError::RequestDeviceError(_) => "The graphics API could not create a device",
            DeviceCreateError::OidnUnsupported => "OIDN could not create a device for this Adapter (does this adapter support OIDN?)",
            DeviceCreateError::OidnImportUnsupported => "OIDN does not support the required import method",
            DeviceCreateError::MissingFeature => "A required feature is missing",
            DeviceCreateError::UnsupportedBackend(_) => "The backend is not supported.",
        }
    }
}

/// Error code reported by the accelerator's last-error facility.
#[derive(Clone, Copy, PartialEq, Eq, Structural, Debug)]
pub enum AcceleratorErrorKind {
    Unknown,
    InvalidArgument,
    InvalidOperation,
    OutOfMemory,
    UnsupportedHardware,
    Cancelled,
}

/// An accelerator failure: the native error code together with the
/// diagnostic text queried from the accelerator device.
#[derive(Clone, PartialEq, Eq, Debug)]
pub struct AcceleratorError {
    pub kind: AcceleratorErrorKind,
    pub description: String,
}

/// Why a shared buffer could not be allocated.
#[derive(Clone, PartialEq, Eq, Debug)]
pub enum SharedBufferCreateError {
    /// The requested byte count is not allowed; carries the request.
    InvalidSize(u64),
    /// The accelerator refused the import of the exported handle.
    Oidn(AcceleratorError),
    /// A heap, resource, memory-type, allocation, bind or export step
    /// failed in the driver.
    OutOfMemory,
}

impl SharedBufferCreateError {
    /// A fixed description of the error variant.
    pub fn message(&self) -> (m: &'static str)
        ensures
            self is InvalidSize ==> m@ == "Size is not allowed"@,
            self is Oidn ==> m@ == "OIDN shared buffer creation failed"@,
            self is OutOfMemory ==> m@ == "Out of memory"@,
    {
        match self {
            SharedBufferCreateError::InvalidSize(_) => "Size is not allowed",
            SharedBufferCreateError::Oidn(_) => "OIDN shared buffer creation failed",
            SharedBufferCreateError::OutOfMemory => "Out of memory",
        }
    }
}

} // verus!
