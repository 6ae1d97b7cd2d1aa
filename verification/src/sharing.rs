//! The closed set of OS-level sharing primitives and graphics backends, and
//! the accelerator's external-memory capability bits.

use vstd::prelude::*;

verus! {

/// OS-level mechanism used to hand one memory allocation from the graphics
/// device context to the accelerator device context. Chosen once per device
/// and never changed afterwards.
#[derive(Clone, Copy, PartialEq, Eq, Structural, Debug)]
pub enum SharingMode {
    /// Opaque NT handle.
    Win32,
    /// POSIX file descriptor; each side owns its descriptor after import.
    Fd,
    /// Linux DMA-BUF descriptor for cross-driver zero-copy.
    DmaBuf,
}

/// Graphics backend variants the bridge supports.
#[derive(Clone, Copy, PartialEq, Eq, Structural, Debug)]
pub enum Backend {
    Dx12,
    Vulkan,
}

/// Backend kind reported by the graphics adapter. Mirrors the adapter
/// enumeration of the graphics API; only `Dx12` and `Vulkan` are supported
/// by the bridge.
#[derive(Clone, Copy, PartialEq, Eq, Structural, Debug)]
pub enum AdapterBackend {
    Noop,
    Vulkan,
    Metal,
    Dx12,
    Gl,
    BrowserWebGpu,
}

/// A backend together with the data its allocator needs: the DX12 path
/// always shares through a Win32 handle, the Vulkan path carries the
/// negotiated sharing mode.
#[derive(Clone, Copy, PartialEq, Eq, Structural, Debug)]
pub enum BackendData {
    Dx12,
    Vulkan(SharingMode),
}

impl BackendData {
    /// The backend this data belongs to.
    pub open spec fn spec_backend(&self) -> Backend {
        match self {
            BackendData::Dx12 => Backend::Dx12,
            BackendData::Vulkan(_) => Backend::Vulkan,
        }
    }

    /// The sharing mode every allocation of this device must use.
    pub open spec fn spec_sharing_mode(&self) -> SharingMode {
        match self {
            BackendData::Dx12 => SharingMode::Win32,
            BackendData::Vulkan(mode) => *mode,
        }
    }

    pub fn as_backend(&self) -> (b: Backend)
        ensures
            b == self.spec_backend(),
    {
        match self {
            BackendData::Dx12 => Backend::Dx12,
            BackendData::Vulkan(_) => Backend::Vulkan,
        }
    }

    pub fn sharing_mode(&self) -> (m: SharingMode)
        ensures
            m == self.spec_sharing_mode(),
    {
        match self {
            BackendData::Dx12 => SharingMode::Win32,
            BackendData::Vulkan(mode) => *mode,
        }
    }
}

/// Accelerator capability bit for importing an opaque POSIX file descriptor.
pub const ACCEL_MEMORY_OPAQUE_FD_BIT: u32 = 1;

/// Accelerator capability bit for importing a Linux DMA-BUF descriptor.
pub const ACCEL_MEMORY_DMA_BUF_BIT: u32 = 2;

/// Accelerator capability bit for importing an opaque Win32 handle.
pub const ACCEL_MEMORY_OPAQUE_WIN32_BIT: u32 = 4;

/// The bit a sharing mode occupies in the accelerator's external-memory
/// capability bitmask.
pub open spec fn spec_accel_memory_bit(mode: SharingMode) -> u32 {
    match mode {
        SharingMode::Win32 => ACCEL_MEMORY_OPAQUE_WIN32_BIT,
        SharingMode::Fd => ACCEL_MEMORY_OPAQUE_FD_BIT,
        SharingMode::DmaBuf => ACCEL_MEMORY_DMA_BUF_BIT,
    }
}

/// Whether the accelerator's capability bitmask advertises support for
/// importing memory through `mode`.
pub open spec fn spec_accel_allows(mask: u32, mode: SharingMode) -> bool {
    mask & spec_accel_memory_bit(mode) != 0
}

/// The capability bit of `mode`, as the accelerator's import entry points
/// expect it.
pub fn accel_memory_bit(mode: SharingMode) -> (b: u32)
    ensures
        b == spec_accel_memory_bit(mode),
{
    match mode {
        SharingMode::Win32 => ACCEL_MEMORY_OPAQUE_WIN32_BIT,
        SharingMode::Fd => ACCEL_MEMORY_OPAQUE_FD_BIT,
        SharingMode::DmaBuf => ACCEL_MEMORY_DMA_BUF_BIT,
    }
}

} // verus!
