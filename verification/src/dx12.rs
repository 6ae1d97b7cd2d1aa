//! DX12 backend allocator planning: the cross-adapter-shareable heap, the
//! placed buffer resource on top of it, and the shared-handle export.
//!
//! The conventional committed-resource path does not work for cross-context
//! sharing in practice; the validated contract is a placed resource on a
//! custom heap, and the shareable handle is exported from the heap, not
//! from the resource.

use vstd::prelude::*;

use crate::sharing::{SharingMode, ACCEL_MEMORY_OPAQUE_WIN32_BIT};
use crate::vulkan::ACCESS_GENERIC_ALL;

verus! {

/// Heap type: a custom heap whose page property and memory pool are given
/// explicitly.
pub const D3D12_HEAP_TYPE_CUSTOM: u32 = 4;

/// CPU page property: the memory is not CPU-accessible.
pub const D3D12_CPU_PAGE_PROPERTY_NOT_AVAILABLE: u32 = 1;

/// Memory pool preference: the device-local pool.
pub const D3D12_MEMORY_POOL_L0: u32 = 1;

/// Heap flag: the heap may be shared with another device context.
pub const D3D12_HEAP_FLAG_SHARED: u32 = 0x1;

/// Heap flag: the heap may be shared across adapters; required for any
/// cross-device-context export.
pub const D3D12_HEAP_FLAG_SHARED_CROSS_ADAPTER: u32 = 0x20;

/// Default placement alignment for buffer resources, in bytes.
pub const D3D12_DEFAULT_RESOURCE_PLACEMENT_ALIGNMENT: u64 = 65536;

/// Resource dimension: a buffer.
pub const D3D12_RESOURCE_DIMENSION_BUFFER: u32 = 1;

/// Resource flag: the resource may be used across adapters; the mandatory
/// companion of the cross-adapter heap flag.
pub const D3D12_RESOURCE_FLAG_ALLOW_CROSS_ADAPTER: u32 = 0x10;

/// Resource state: the generic common state.
pub const D3D12_RESOURCE_STATE_COMMON: u32 = 0;

/// Texture layout: row-major, the only layout a buffer may use.
pub const D3D12_TEXTURE_LAYOUT_ROW_MAJOR: u32 = 1;

/// Pixel format: unknown/typeless, the only format a buffer may use.
pub const DXGI_FORMAT_UNKNOWN: u32 = 0;

/// The heap-creation request for one shared allocation.
#[derive(Clone, Copy, Debug)]
pub struct Dx12HeapRequest {
    /// Heap size in bytes: the caller's logical size.
    pub size: u64,
    pub heap_type: u32,
    pub cpu_page_property: u32,
    pub memory_pool: u32,
    pub creation_node_mask: u32,
    pub visible_node_mask: u32,
    /// Placement alignment of resources inside the heap.
    pub alignment: u64,
    /// Combined heap flags.
    pub flags: u32,
}

/// Plan the cross-adapter-shareable heap: CPU-inaccessible, device-local,
/// flagged `SHARED | SHARED_CROSS_ADAPTER`, with default placement
/// alignment.
pub fn plan_dx12_heap(size: u64) -> (r: Dx12HeapRequest)
    requires
        size > 0,
    ensures
        r.size == size,
        r.heap_type == D3D12_HEAP_TYPE_CUSTOM,
        r.cpu_page_property == D3D12_CPU_PAGE_PROPERTY_NOT_AVAILABLE,
        r.memory_pool == D3D12_MEMORY_POOL_L0,
        r.creation_node_mask == 0,
        r.visible_node_mask == 0,
        r.alignment == D3D12_DEFAULT_RESOURCE_PLACEMENT_ALIGNMENT,
        r.flags == D3D12_HEAP_FLAG_SHARED | D3D12_HEAP_FLAG_SHARED_CROSS_ADAPTER,
{
    Dx12HeapRequest {
        size,
        heap_type: D3D12_HEAP_TYPE_CUSTOM,
        cpu_page_property: D3D12_CPU_PAGE_PROPERTY_NOT_AVAILABLE,
        memory_pool: D3D12_MEMORY_POOL_L0,
        creation_node_mask: 0,
        visible_node_mask: 0,
        alignment: D3D12_DEFAULT_RESOURCE_PLACEMENT_ALIGNMENT,
        flags: D3D12_HEAP_FLAG_SHARED | D3D12_HEAP_FLAG_SHARED_CROSS_ADAPTER,
    }
}

/// The placed-resource request: one buffer resource placed at offset 0
/// inside the shared heap.
#[derive(Clone, Copy, Debug)]
pub struct Dx12ResourceRequest {
    pub dimension: u32,
    /// Resource alignment; 0 selects the default.
    pub alignment: u64,
    /// Buffer width in bytes: the caller's logical size.
    pub width: u64,
    pub height: u32,
    pub depth_or_array_size: u16,
    pub mip_levels: u16,
    pub format: u32,
    pub sample_count: u32,
    pub sample_quality: u32,
    pub layout: u32,
    /// Combined resource flags.
    pub flags: u32,
    /// Byte offset of the resource inside the heap.
    pub heap_offset: u64,
    /// State the resource starts in.
    pub initial_state: u32,
}

/// Plan the buffer resource placed at offset 0 of the shared heap, with
/// the cross-adapter resource flag that the cross-adapter heap demands.
pub fn plan_dx12_resource(size: u64) -> (r: Dx12ResourceRequest)
    requires
        size > 0,
    ensures
        r.dimension == D3D12_RESOURCE_DIMENSION_BUFFER,
        r.alignment == 0,
        r.width == size,
        r.height == 1,
        r.depth_or_array_size == 1,
        r.mip_levels == 1,
        r.format == DXGI_FORMAT_UNKNOWN,
        r.sample_count == 1,
        r.sample_quality == 0,
        r.layout == D3D12_TEXTURE_LAYOUT_ROW_MAJOR,
        r.flags == D3D12_RESOURCE_FLAG_ALLOW_CROSS_ADAPTER,
        r.heap_offset == 0,
        r.initial_state == D3D12_RESOURCE_STATE_COMMON,
{
    Dx12ResourceRequest {
        dimension: D3D12_RESOURCE_DIMENSION_BUFFER,
        alignment: 0,
        width: size,
        height: 1,
        depth_or_array_size: 1,
        mip_levels: 1,
        format: DXGI_FORMAT_UNKNOWN,
        sample_count: 1,
        sample_quality: 0,
        layout: D3D12_TEXTURE_LAYOUT_ROW_MAJOR,
        flags: D3D12_RESOURCE_FLAG_ALLOW_CROSS_ADAPTER,
        heap_offset: 0,
        initial_state: D3D12_RESOURCE_STATE_COMMON,
    }
}

/// The shared-handle export and accelerator import for the DX12 path.
#[derive(Clone, Copy, Debug)]
pub struct Dx12ExportPlan {
    /// The handle is exported from the heap, never from the resource: the
    /// heap owns the physical memory the accelerator will alias.
    pub export_from_heap: bool,
    /// Access rights requested on the shared handle.
    pub access: u32,
    /// External-memory type bit passed to the accelerator's import entry
    /// point.
    pub accel_memory_type: u32,
    /// Byte count declared to the accelerator: the logical buffer size.
    pub import_byte_size: u64,
}

/// Plan the export of the heap's shared handle with full generic access
/// and its import into the accelerator as opaque Win32 external memory.
pub fn plan_dx12_export(size: u64) -> (r: Dx12ExportPlan)
    ensures
        r.export_from_heap,
        r.access == ACCESS_GENERIC_ALL,
        r.accel_memory_type == ACCEL_MEMORY_OPAQUE_WIN32_BIT,
        r.accel_memory_type == crate::sharing::spec_accel_memory_bit(SharingMode::Win32),
        r.import_byte_size == size,
{
    Dx12ExportPlan {
        export_from_heap: true,
        access: ACCESS_GENERIC_ALL,
        accel_memory_type: ACCEL_MEMORY_OPAQUE_WIN32_BIT,
        import_byte_size: size,
    }
}

} // verus!
