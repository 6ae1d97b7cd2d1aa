//! Capability negotiation: find one sharing mode supported by both the
//! graphics adapter's extension set and the accelerator's external-memory
//! capability bitmask.
//!
//! Candidates are tried in the fixed priority order `Win32`, `Fd`, `DmaBuf`;
//! the first mode affirmed by both sides wins. This is a deterministic
//! priority order, not a heuristic.

use vstd::prelude::*;

use crate::errors::DeviceCreateError;
use crate::sharing::{spec_accel_allows, AdapterBackend, Backend, BackendData, SharingMode};

verus! {

/// Packed graphics API version (variant, major, minor, patch) at which
/// extended physical-device property queries become available: version 1.1.
pub const VULKAN_API_VERSION_1_1: u32 = 0x0040_1000;

/// External-memory capabilities of a Vulkan adapter, as read from its
/// extension set, together with its API version.
#[derive(Clone, Copy, PartialEq, Eq, Structural, Debug)]
pub struct AdapterCaps {
    /// The adapter exposes the external-memory-win32 extension.
    pub win32_handle_ext: bool,
    /// The adapter exposes the external-memory-fd extension.
    pub fd_ext: bool,
    /// The adapter exposes the external-memory-dma-buf extension
    /// (usable only together with the fd extension).
    pub dma_buf_ext: bool,
    /// Packed API version reported by the physical device.
    pub api_version: u32,
}

/// Whether the adapter's extension set supports sharing through `mode`.
/// DMA-BUF export goes through the fd entry points, so it additionally
/// needs the fd extension.
pub open spec fn spec_adapter_allows(caps: AdapterCaps, mode: SharingMode) -> bool {
    match mode {
        SharingMode::Win32 => caps.win32_handle_ext,
        SharingMode::Fd => caps.fd_ext,
        SharingMode::DmaBuf => caps.dma_buf_ext && caps.fd_ext,
    }
}

/// Whether both sides support `mode`: what one negotiation candidate
/// must satisfy to win.
pub open spec fn spec_mode_agreed(caps: AdapterCaps, mask: u32, mode: SharingMode) -> bool {
    spec_adapter_allows(caps, mode) && spec_accel_allows(mask, mode)
}

/// The negotiated Vulkan sharing mode: the first of `Win32`, `Fd`, `DmaBuf`
/// that both sides support, or nothing when no candidate is agreed.
pub open spec fn spec_negotiate_vulkan(caps: AdapterCaps, mask: u32) -> Option<SharingMode> {
    if spec_mode_agreed(caps, mask, SharingMode::Win32) {
        Some(SharingMode::Win32)
    } else if spec_mode_agreed(caps, mask, SharingMode::Fd) {
        Some(SharingMode::Fd)
    } else if spec_mode_agreed(caps, mask, SharingMode::DmaBuf) {
        Some(SharingMode::DmaBuf)
    } else {
        None
    }
}

/// Negotiate the sharing mode for a Vulkan adapter against the
/// accelerator's capability bitmask.
pub fn negotiate_vulkan(caps: &AdapterCaps, mask: u32) -> (r: Option<SharingMode>)
    ensures
        r == spec_negotiate_vulkan(*caps, mask),
        r matches Some(mode) ==> spec_mode_agreed(*caps, mask, mode),
        r is None ==> forall|mode: SharingMode| !spec_mode_agreed(*caps, mask, mode),
{
    let accel_win32 = mask & crate::sharing::ACCEL_MEMORY_OPAQUE_WIN32_BIT != 0;
    let accel_fd = mask & crate::sharing::ACCEL_MEMORY_OPAQUE_FD_BIT != 0;
    let accel_dma = mask & crate::sharing::ACCEL_MEMORY_DMA_BUF_BIT != 0;
    if accel_win32 && caps.win32_handle_ext {
        Some(SharingMode::Win32)
    } else if accel_fd && caps.fd_ext {
        Some(SharingMode::Fd)
    } else if accel_dma && caps.dma_buf_ext && caps.fd_ext {
        Some(SharingMode::DmaBuf)
    } else {
        assert(forall|mode: SharingMode| !spec_mode_agreed(*caps, mask, mode)) by {
            assert(!spec_mode_agreed(*caps, mask, SharingMode::Win32));
            assert(!spec_mode_agreed(*caps, mask, SharingMode::Fd));
            assert(!spec_mode_agreed(*caps, mask, SharingMode::DmaBuf));
        }
        None
    }
}

/// The negotiated backend data for a DX12 adapter: DX12 exposes only the
/// Win32 handle path, so the accelerator's Win32 capability bit alone
/// decides.
pub open spec fn spec_negotiate_dx12(mask: u32) -> Option<BackendData> {
    if spec_accel_allows(mask, SharingMode::Win32) {
        Some(BackendData::Dx12)
    } else {
        None
    }
}

/// Negotiate the import method for a DX12 adapter against the
/// accelerator's capability bitmask.
pub fn negotiate_dx12(mask: u32) -> (r: Option<BackendData>)
    ensures
        r == spec_negotiate_dx12(mask),
{
    if mask & crate::sharing::ACCEL_MEMORY_OPAQUE_WIN32_BIT != 0 {
        Some(BackendData::Dx12)
    } else {
        None
    }
}

/// Negotiation is deterministic: the same adapter capability set and the
/// same accelerator capability bitmask always yield the same sharing mode.
pub proof fn lemma_negotiation_deterministic(
    caps1: AdapterCaps,
    mask1: u32,
    caps2: AdapterCaps,
    mask2: u32,
)
    requires
        caps1 == caps2,
        mask1 == mask2,
    ensures
        spec_negotiate_vulkan(caps1, mask1) == spec_negotiate_vulkan(caps2, mask2),
        spec_negotiate_dx12(mask1) == spec_negotiate_dx12(mask2),
{
}

/// The priority order is strict: a candidate wins exactly when both sides
/// support it and no earlier candidate was agreed, and negotiation comes
/// up empty exactly when no candidate is agreed at all.
pub proof fn lemma_negotiation_priority(caps: AdapterCaps, mask: u32)
    ensures
        spec_negotiate_vulkan(caps, mask) == Some(SharingMode::Win32) <==> spec_mode_agreed(
            caps,
            mask,
            SharingMode::Win32,
        ),
        spec_negotiate_vulkan(caps, mask) == Some(SharingMode::Fd) <==> (!spec_mode_agreed(
            caps,
            mask,
            SharingMode::Win32,
        ) && spec_mode_agreed(caps, mask, SharingMode::Fd)),
        spec_negotiate_vulkan(caps, mask) == Some(SharingMode::DmaBuf) <==> (!spec_mode_agreed(
            caps,
            mask,
            SharingMode::Win32,
        ) && !spec_mode_agreed(caps, mask, SharingMode::Fd) && spec_mode_agreed(
            caps,
            mask,
            SharingMode::DmaBuf,
        )),
        spec_negotiate_vulkan(caps, mask) is None <==> forall|mode: SharingMode|
            !spec_mode_agreed(caps, mask, mode),
{
    if spec_negotiate_vulkan(caps, mask) is None {
        assert forall|mode: SharingMode| !spec_mode_agreed(caps, mask, mode) by {
            match mode {
                SharingMode::Win32 => {},
                SharingMode::Fd => {},
                SharingMode::DmaBuf => {},
            }
        }
    }
}

/// Whether a Vulkan adapter can provide the platform GPU identity the
/// accelerator needs: at least one external-memory path must exist and the
/// API version must allow the extended property query.
pub open spec fn spec_vulkan_identity_available(caps: AdapterCaps) -> bool {
    (caps.win32_handle_ext || (caps.dma_buf_ext && caps.fd_ext) || caps.fd_ext)
        && caps.api_version >= VULKAN_API_VERSION_1_1
}

/// Guard of the Vulkan device path: when this fails, device creation stops
/// with `MissingFeature` before the accelerator device is ever constructed.
pub fn vulkan_identity_available(caps: &AdapterCaps) -> (ok: bool)
    ensures
        ok == spec_vulkan_identity_available(*caps),
{
    (caps.win32_handle_ext || (caps.dma_buf_ext && caps.fd_ext) || caps.fd_ext)
        && caps.api_version >= VULKAN_API_VERSION_1_1
}

/// Route an adapter to the backend allocator that will serve it.
pub fn select_backend(adapter: AdapterBackend) -> (r: Result<Backend, DeviceCreateError>)
    ensures
        adapter == AdapterBackend::Vulkan ==> r == Ok::<Backend, DeviceCreateError>(
            Backend::Vulkan,
        ),
        adapter == AdapterBackend::Dx12 ==> r == Ok::<Backend, DeviceCreateError>(Backend::Dx12),
        adapter != AdapterBackend::Vulkan && adapter != AdapterBackend::Dx12 ==> r == Err::<
            Backend,
            DeviceCreateError,
        >(DeviceCreateError::UnsupportedBackend(adapter)),
{
    match adapter {
        AdapterBackend::Vulkan => Ok(Backend::Vulkan),
        AdapterBackend::Dx12 => Ok(Backend::Dx12),
        _ => Err(DeviceCreateError::UnsupportedBackend(adapter)),
    }
}

/// Outcome of resolving the accelerator side of device creation.
pub struct NegotiationOutcome {
    /// The negotiated backend data, or why negotiation failed.
    pub result: Result<BackendData, DeviceCreateError>,
    /// Whether the already-constructed accelerator device must be released
    /// before returning, to avoid a leak in its internal registry.
    pub release_accelerator: bool,
}

/// Resolve the accelerator side of device creation.
///
/// `device_found` says whether the accelerator produced a device object for
/// this physical GPU; `negotiated` is the outcome of the capability
/// negotiation against that device's bitmask (ignored when no device was
/// found). The accelerator device must be released if and only if it exists
/// and negotiation failed: success hands ownership to the bridge device,
/// and a device that was never constructed has nothing to release.
pub fn resolve_accelerator(device_found: bool, negotiated: Option<BackendData>) -> (o:
    NegotiationOutcome)
    ensures
        !device_found ==> o.result == Err::<BackendData, DeviceCreateError>(
            DeviceCreateError::OidnUnsupported,
        ),
        device_found && negotiated is None ==> o.result == Err::<BackendData, DeviceCreateError>(
            DeviceCreateError::OidnImportUnsupported,
        ),
        device_found ==> (negotiated matches Some(data) ==> o.result == Ok::<
            BackendData,
            DeviceCreateError,
        >(data)),
        o.release_accelerator <==> (device_found && o.result is Err),
{
    if !device_found {
        NegotiationOutcome { result: Err(DeviceCreateError::OidnUnsupported), release_accelerator: false }
    } else {
        match negotiated {
            None => NegotiationOutcome {
                result: Err(DeviceCreateError::OidnImportUnsupported),
                release_accelerator: true,
            },
            Some(data) => NegotiationOutcome { result: Ok(data), release_accelerator: false },
        }
    }
}

} // verus!
