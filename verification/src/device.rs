//! The bridge device: the negotiated backend data, fixed for the device's
//! lifetime, and the dispatch of each allocation request to the matching
//! backend allocator.

use vstd::prelude::*;

use crate::dx12::{
    plan_dx12_export, plan_dx12_heap, plan_dx12_resource, Dx12ExportPlan, Dx12HeapRequest,
    Dx12ResourceRequest,
};
use crate::errors::{AcceleratorError, SharedBufferCreateError};
use crate::sharing::{Backend, BackendData, SharingMode};
use crate::vulkan::{plan_vulkan_buffer, VulkanBufferRequest};

verus! {

/// Graphics-side buffer usage flag: the buffer may be a copy source.
pub const GRAPHICS_BUFFER_USAGE_COPY_SRC: u32 = 4;

/// Graphics-side buffer usage flag: the buffer may be a copy destination.
pub const GRAPHICS_BUFFER_USAGE_COPY_DST: u32 = 8;

/// A queue-submitted clear-to-zero over a byte range of the new buffer.
#[derive(Clone, Copy, Debug)]
pub struct ClearCommand {
    /// First byte cleared.
    pub start: u64,
    /// One past the last byte cleared.
    pub end: u64,
}

/// Whether the clear covers every one of the first `size` bytes.
pub open spec fn spec_clear_covers(clear: ClearCommand, size: u64) -> bool {
    clear.start == 0 && clear.end == size
}

/// Plan the clear-to-zero that puts the new allocation's first `size`
/// bytes into a defined state for both consumers before the buffer is
/// handed out.
pub fn plan_clear(size: u64) -> (r: ClearCommand)
    ensures
        spec_clear_covers(r, size),
{
    ClearCommand { start: 0, end: size }
}

/// Descriptor under which the backend-native resource is wrapped as a
/// graphics-API buffer object.
#[derive(Clone, Copy, Debug)]
pub struct GraphicsBufferDescriptor {
    /// Size reported to the graphics API: the caller's logical size, even
    /// when the backing allocation was padded for alignment.
    pub size: u64,
    /// Combined usage flags.
    pub usage: u32,
    /// The buffer is not mapped at creation; it is not CPU-visible.
    pub mapped_at_creation: bool,
}

/// Plan the graphics-side wrapper for the backend-native resource.
pub fn plan_graphics_buffer(size: u64) -> (r: GraphicsBufferDescriptor)
    requires
        size > 0,
    ensures
        r.size == size,
        r.usage == GRAPHICS_BUFFER_USAGE_COPY_SRC | GRAPHICS_BUFFER_USAGE_COPY_DST,
        !r.mapped_at_creation,
{
    GraphicsBufferDescriptor {
        size,
        usage: GRAPHICS_BUFFER_USAGE_COPY_SRC | GRAPHICS_BUFFER_USAGE_COPY_DST,
        mapped_at_creation: false,
    }
}

/// Map the accelerator's answer to a buffer import back into the
/// allocation flow: a null import is the accelerator's refusal and
/// surfaces its queried last error.
pub fn import_outcome(imported: bool, error: AcceleratorError) -> (r: Result<
    (),
    SharedBufferCreateError,
>)
    ensures
        imported ==> r == Ok::<(), SharedBufferCreateError>(()),
        !imported ==> r == Err::<(), SharedBufferCreateError>(SharedBufferCreateError::Oidn(error)),
{
    if imported {
        Ok(())
    } else {
        Err(SharedBufferCreateError::Oidn(error))
    }
}

/// The first driver request of one allocation, per backend. The DX12 path
/// needs no driver feedback before the export, so its whole request
/// sequence is planned up front; the Vulkan path must wait for the
/// driver's memory requirements, which the memory planner then consumes.
#[derive(Clone, Copy, Debug)]
pub enum AllocationRequest {
    Dx12 {
        heap: Dx12HeapRequest,
        resource: Dx12ResourceRequest,
        export: Dx12ExportPlan,
        clear: ClearCommand,
        graphics: GraphicsBufferDescriptor,
    },
    Vulkan { mode: SharingMode, buffer: VulkanBufferRequest },
}

/// The bridge device: both device contexts' negotiated backend data.
/// The sharing mode is resolved once at construction and every buffer
/// allocation of this device uses it.
pub struct Device {
    backend_data: BackendData,
}

impl Device {
    /// The negotiated backend data.
    pub closed spec fn spec_backend_data(&self) -> BackendData {
        self.backend_data
    }

    /// Construct the device from a completed negotiation.
    pub fn from_negotiation(backend_data: BackendData) -> (d: Device)
        ensures
            d.spec_backend_data() == backend_data,
    {
        Device { backend_data }
    }

    /// The backend every allocation of this device dispatches to.
    pub fn backend(&self) -> (b: Backend)
        ensures
            b == self.spec_backend_data().spec_backend(),
    {
        self.backend_data.as_backend()
    }

    /// The sharing mode every allocation of this device uses.
    pub fn sharing_mode(&self) -> (m: SharingMode)
        ensures
            m == self.spec_backend_data().spec_sharing_mode(),
    {
        self.backend_data.sharing_mode()
    }

    /// Validate the requested size and dispatch to the backend allocator:
    /// a zero byte count always fails with `InvalidSize`, for every
    /// backend; any positive count yields the backend's first driver
    /// request.
    pub fn allocate_shared_buffers(&self, size: u64) -> (r: Result<
        AllocationRequest,
        SharedBufferCreateError,
    >)
        ensures
            size == 0 ==> r == Err::<AllocationRequest, SharedBufferCreateError>(
                SharedBufferCreateError::InvalidSize(size),
            ),
            r is Err <==> size == 0,
            size > 0 && self.spec_backend_data() is Dx12 ==> (r matches Ok(
                AllocationRequest::Dx12 { heap, resource, export, clear, graphics },
            ) && {
                &&& heap.size == size
                &&& heap.flags == crate::dx12::D3D12_HEAP_FLAG_SHARED
                    | crate::dx12::D3D12_HEAP_FLAG_SHARED_CROSS_ADAPTER
                &&& resource.width == size
                &&& resource.flags == crate::dx12::D3D12_RESOURCE_FLAG_ALLOW_CROSS_ADAPTER
                &&& export.export_from_heap
                &&& export.import_byte_size == size
                &&& spec_clear_covers(clear, size)
                &&& graphics.size == size
            }),
            size > 0 ==> (self.spec_backend_data() matches BackendData::Vulkan(m) ==> (r matches Ok(
                AllocationRequest::Vulkan { mode, buffer },
            ) && {
                &&& mode == m
                &&& buffer.size == size
                &&& buffer.external_handle_type == crate::vulkan::spec_vulkan_handle_type(m)
            })),
    {
        if size == 0 {
            return Err(SharedBufferCreateError::InvalidSize(size));
        }
        match self.backend_data {
            BackendData::Dx12 => Ok(
                (AllocationRequest::Dx12 {
                    heap: plan_dx12_heap(size),
                    resource: plan_dx12_resource(size),
                    export: plan_dx12_export(size),
                    clear: plan_clear(size),
                    graphics: plan_graphics_buffer(size),
                }),
            ),
            BackendData::Vulkan(mode) => Ok(
                (AllocationRequest::Vulkan { mode, buffer: plan_vulkan_buffer(mode, size) }),
            ),
        }
    }
}

} // verus!
