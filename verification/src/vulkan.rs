//! Vulkan backend allocator planning: the buffer-creation, memory-allocation
//! and handle-export requests for an exportable device-local allocation, and
//! the selection of the memory type that backs it.
//!
//! The surrounding driver shell creates the buffer from the planned request,
//! feeds the driver's memory requirements back into the memory planner, and
//! performs the export and the accelerator import exactly as planned.

use vstd::arithmetic::div_mod::{
    lemma_fundamental_div_mod, lemma_mod_bound, lemma_mod_multiples_basic,
};
use vstd::prelude::*;

use crate::errors::SharedBufferCreateError;
use crate::sharing::{spec_accel_memory_bit, SharingMode};

verus! {

/// External-memory handle type flag for an opaque POSIX file descriptor.
pub const VK_EXTERNAL_MEMORY_HANDLE_OPAQUE_FD: u32 = 0x1;

/// External-memory handle type flag for an opaque Win32 NT handle.
pub const VK_EXTERNAL_MEMORY_HANDLE_OPAQUE_WIN32: u32 = 0x2;

/// External-memory handle type flag for a Linux DMA-BUF descriptor.
pub const VK_EXTERNAL_MEMORY_HANDLE_DMA_BUF: u32 = 0x200;

/// Buffer usage flag: the buffer may be the source of a transfer.
pub const VK_BUFFER_USAGE_TRANSFER_SRC: u32 = 0x1;

/// Buffer usage flag: the buffer may be the destination of a transfer.
pub const VK_BUFFER_USAGE_TRANSFER_DST: u32 = 0x2;

/// Memory property flag: the memory is local to the device.
pub const VK_MEMORY_PROPERTY_DEVICE_LOCAL: u32 = 0x1;

/// Full generic access rights for an exported Win32 handle, as the OS
/// defines them.
pub const ACCESS_GENERIC_ALL: u32 = 0x1000_0000;

/// The external-memory handle type flag declared for `mode` on the buffer,
/// the allocation and the export query alike.
pub open spec fn spec_vulkan_handle_type(mode: SharingMode) -> u32 {
    match mode {
        SharingMode::Win32 => VK_EXTERNAL_MEMORY_HANDLE_OPAQUE_WIN32,
        SharingMode::Fd => VK_EXTERNAL_MEMORY_HANDLE_OPAQUE_FD,
        SharingMode::DmaBuf => VK_EXTERNAL_MEMORY_HANDLE_DMA_BUF,
    }
}

/// The handle type flag to declare for `mode`.
pub fn vulkan_handle_type(mode: SharingMode) -> (t: u32)
    ensures
        t == spec_vulkan_handle_type(mode),
{
    match mode {
        SharingMode::Win32 => VK_EXTERNAL_MEMORY_HANDLE_OPAQUE_WIN32,
        SharingMode::Fd => VK_EXTERNAL_MEMORY_HANDLE_OPAQUE_FD,
        SharingMode::DmaBuf => VK_EXTERNAL_MEMORY_HANDLE_DMA_BUF,
    }
}

/// The buffer-creation request: a transfer buffer with exclusive queue
/// ownership, declared exportable through one handle type.
#[derive(Clone, Copy, Debug)]
pub struct VulkanBufferRequest {
    /// Requested buffer size in bytes: the caller's logical size.
    pub size: u64,
    /// Combined buffer usage flags.
    pub usage: u32,
    /// Exclusive queue-family ownership: cross-device sharing goes through
    /// exported memory, not concurrent queue-family access.
    pub exclusive_sharing: bool,
    /// Handle type declared in the chained external-memory structure.
    pub external_handle_type: u32,
}

/// Plan the buffer-creation request for the negotiated sharing mode.
pub fn plan_vulkan_buffer(mode: SharingMode, size: u64) -> (r: VulkanBufferRequest)
    requires
        size > 0,
    ensures
        r.size == size,
        r.usage == VK_BUFFER_USAGE_TRANSFER_SRC | VK_BUFFER_USAGE_TRANSFER_DST,
        r.exclusive_sharing,
        r.external_handle_type == spec_vulkan_handle_type(mode),
{
    VulkanBufferRequest {
        size,
        usage: VK_BUFFER_USAGE_TRANSFER_SRC | VK_BUFFER_USAGE_TRANSFER_DST,
        exclusive_sharing: true,
        external_handle_type: vulkan_handle_type(mode),
    }
}

/// `size` rounded up to the next multiple of `align`.
pub open spec fn spec_align_up(size: int, align: int) -> int
    recommends
        align > 0,
        size >= 0,
{
    if size % align == 0 {
        size
    } else {
        size + align - size % align
    }
}

/// Rounding up to an alignment yields the least multiple of the alignment
/// that is at least the requested size.
pub proof fn lemma_align_up_properties(size: int, align: int)
    requires
        align > 0,
        size >= 0,
    ensures
        spec_align_up(size, align) >= size,
        spec_align_up(size, align) < size + align,
        spec_align_up(size, align) % align == 0,
{
    lemma_mod_bound(size, align);
    if size % align != 0 {
        lemma_fundamental_div_mod(size, align);
        assert(size - size % align == align * (size / align));
        assert(spec_align_up(size, align) == align * (size / align) + align);
        assert(align * (size / align) + align == (size / align + 1) * align) by (nonlinear_arith);
        lemma_mod_multiples_basic(size / align + 1, align);
    }
}

/// Round `size` up to the next multiple of `align`, or report that the
/// result does not fit in 64 bits.
pub fn checked_align_up(size: u64, align: u64) -> (r: Option<u64>)
    requires
        align > 0,
    ensures
        r matches Some(v) ==> v == spec_align_up(size as int, align as int),
        r is None ==> spec_align_up(size as int, align as int) > u64::MAX,
{
    let rem = size % align;
    if rem == 0 {
        Some(size)
    } else {
        let pad = align - rem;
        if size <= u64::MAX - pad {
            Some(size + pad)
        } else {
            None
        }
    }
}

/// Whether memory type `i` can back the buffer: the buffer's required-type
/// bitmask has bit `i` set and the type's property flags include all the
/// `required` properties.
pub open spec fn spec_type_matches(type_bits: u32, flags: Seq<u32>, required: u32, i: int) -> bool
    recommends
        0 <= i < flags.len(),
        flags.len() <= 32,
{
    type_bits & (1u32 << (i as u32)) != 0 && flags[i] & required == required
}

/// Scan the physical device's memory types, in order, for the first one
/// whose bit is set in `type_bits` and whose property flags include all of
/// `required`. Returns its index, or nothing when no type qualifies.
pub fn find_memory_type(type_bits: u32, flags: &Vec<u32>, required: u32) -> (r: Option<usize>)
    requires
        flags@.len() <= 32,
    ensures
        r matches Some(i) ==> i < flags@.len() && spec_type_matches(
            type_bits,
            flags@,
            required,
            i as int,
        ) && forall|j: int| 0 <= j < i ==> !spec_type_matches(type_bits, flags@, required, j),
        r is None ==> forall|j: int|
            0 <= j < flags@.len() ==> !spec_type_matches(type_bits, flags@, required, j),
{
    let mut i: usize = 0;
    while i < flags.len()
        invariant
            i <= flags@.len() <= 32,
            forall|j: int| 0 <= j < i ==> !spec_type_matches(type_bits, flags@, required, j),
        decreases flags@.len() - i,
    {
        let bit: u32 = 1u32 << (i as u32);
        if type_bits & bit != 0 && flags[i] & required == required {
            return Some(i);
        }
        i += 1;
    }
    None
}

/// The memory-allocation request: the padded allocation size, the chosen
/// memory type, and the export declaration chained onto the allocation.
#[derive(Clone, Copy, Debug)]
pub struct VulkanMemoryRequest {
    /// Allocation size: the buffer size rounded up to the driver's
    /// required alignment.
    pub allocation_size: u64,
    /// Index of the chosen device-local memory type.
    pub memory_type_index: usize,
    /// Byte offset at which the buffer is bound to the memory.
    pub bind_offset: u64,
    /// Handle type declared in the chained export-allocate structure.
    pub export_handle_type: u32,
    /// Access rights for the chained Win32-export structure; present for
    /// the Win32 mode only, since the other modes need no access
    /// descriptor.
    pub win32_access: Option<u32>,
}

/// Plan the memory allocation from the driver's reported requirements:
/// round the size up to the required alignment and pick the first
/// device-local memory type the buffer accepts. No fallback to
/// host-visible memory is attempted, since host-visible exported memory is
/// not guaranteed importable by the accelerator; absence of a matching
/// type is an out-of-memory failure.
pub fn plan_vulkan_memory(
    mode: SharingMode,
    size: u64,
    alignment: u64,
    memory_type_bits: u32,
    memory_type_flags: &Vec<u32>,
) -> (r: Result<VulkanMemoryRequest, SharedBufferCreateError>)
    requires
        alignment > 0,
        memory_type_flags@.len() <= 32,
    ensures
        r matches Ok(plan) ==> {
            &&& plan.allocation_size == spec_align_up(size as int, alignment as int)
            &&& plan.memory_type_index < memory_type_flags@.len()
            &&& spec_type_matches(
                memory_type_bits,
                memory_type_flags@,
                VK_MEMORY_PROPERTY_DEVICE_LOCAL,
                plan.memory_type_index as int,
            )
            &&& forall|j: int|
                0 <= j < plan.memory_type_index ==> !spec_type_matches(
                    memory_type_bits,
                    memory_type_flags@,
                    VK_MEMORY_PROPERTY_DEVICE_LOCAL,
                    j,
                )
            &&& plan.bind_offset == 0
            &&& plan.export_handle_type == spec_vulkan_handle_type(mode)
            &&& plan.win32_access == (if mode == SharingMode::Win32 {
                Some(ACCESS_GENERIC_ALL)
            } else {
                None::<u32>
            })
        },
        r matches Err(e) ==> e == SharedBufferCreateError::OutOfMemory,
        r is Err <==> (spec_align_up(size as int, alignment as int) > u64::MAX || forall|j: int|
            0 <= j < memory_type_flags@.len() ==> !spec_type_matches(
                memory_type_bits,
                memory_type_flags@,
                VK_MEMORY_PROPERTY_DEVICE_LOCAL,
                j,
            )),
{
    let allocation_size = match checked_align_up(size, alignment) {
        Some(v) => v,
        None => {
            return Err(SharedBufferCreateError::OutOfMemory);
        },
    };
    let memory_type_index = match find_memory_type(
        memory_type_bits,
        memory_type_flags,
        VK_MEMORY_PROPERTY_DEVICE_LOCAL,
    ) {
        Some(i) => i,
        None => {
            return Err(SharedBufferCreateError::OutOfMemory);
        },
    };
    let win32_access = match mode {
        SharingMode::Win32 => Some(ACCESS_GENERIC_ALL),
        SharingMode::Fd => None,
        SharingMode::DmaBuf => None,
    };
    Ok(
        (VulkanMemoryRequest {
            allocation_size,
            memory_type_index,
            bind_offset: 0,
            export_handle_type: vulkan_handle_type(mode),
            win32_access,
        }),
    )
}

/// The export/import step: which driver query fetches the OS handle and
/// which accelerator entry point receives it.
#[derive(Clone, Copy, Debug)]
pub struct HandleExportPlan {
    /// Whether the export goes through the file-descriptor query; the
    /// Win32 mode uses the NT-handle query instead.
    pub uses_fd: bool,
    /// Handle type flag passed to the export query.
    pub vulkan_handle_type: u32,
    /// External-memory type bit passed to the accelerator's import entry
    /// point.
    pub accel_memory_type: u32,
    /// Byte count declared to the accelerator: the logical buffer size.
    pub import_byte_size: u64,
}

/// Plan the export of the allocation's OS handle and its import into the
/// accelerator. The fd and DMA-BUF modes share one driver query and one
/// import entry point, differentiated only by the type flags.
pub fn plan_vulkan_export(mode: SharingMode, size: u64) -> (r: HandleExportPlan)
    ensures
        r.uses_fd == (mode != SharingMode::Win32),
        r.vulkan_handle_type == spec_vulkan_handle_type(mode),
        r.accel_memory_type == spec_accel_memory_bit(mode),
        r.import_byte_size == size,
{
    HandleExportPlan {
        uses_fd: !matches!(mode, SharingMode::Win32),
        vulkan_handle_type: vulkan_handle_type(mode),
        accel_memory_type: crate::sharing::accel_memory_bit(mode),
        import_byte_size: size,
    }
}

} // verus!
