use oidn_wgpu_interop::device::{
    plan_clear, plan_graphics_buffer, AllocationRequest, Device, GRAPHICS_BUFFER_USAGE_COPY_DST,
    GRAPHICS_BUFFER_USAGE_COPY_SRC,
};
use oidn_wgpu_interop::dx12::{
    plan_dx12_export, plan_dx12_heap, plan_dx12_resource, D3D12_HEAP_FLAG_SHARED,
    D3D12_HEAP_FLAG_SHARED_CROSS_ADAPTER, D3D12_RESOURCE_FLAG_ALLOW_CROSS_ADAPTER,
};
use oidn_wgpu_interop::errors::SharedBufferCreateError;
use oidn_wgpu_interop::sharing::{Backend, BackendData, SharingMode};
use oidn_wgpu_interop::vulkan::{
    checked_align_up, find_memory_type, plan_vulkan_buffer, plan_vulkan_export, plan_vulkan_memory,
    vulkan_handle_type, ACCESS_GENERIC_ALL, VK_MEMORY_PROPERTY_DEVICE_LOCAL,
};

#[test]
fn zero_size_fails_with_invalid_size_on_every_backend() {
    let backends = [
        BackendData::Dx12,
        BackendData::Vulkan(SharingMode::Win32),
        BackendData::Vulkan(SharingMode::Fd),
        BackendData::Vulkan(SharingMode::DmaBuf),
    ];
    for data in backends {
        let device = Device::from_negotiation(data);
        let r = device.allocate_shared_buffers(0);
        assert_eq!(r.unwrap_err(), SharedBufferCreateError::InvalidSize(0));
    }
}

#[test]
fn dx12_allocation_plans_the_whole_sequence() {
    let device = Device::from_negotiation(BackendData::Dx12);
    match device.allocate_shared_buffers(4096).unwrap() {
        AllocationRequest::Dx12 { heap, resource, export, clear, graphics } => {
            assert_eq!(heap.size, 4096);
            assert_eq!(heap.flags, D3D12_HEAP_FLAG_SHARED | D3D12_HEAP_FLAG_SHARED_CROSS_ADAPTER);
            assert_eq!(resource.width, 4096);
            assert_eq!(resource.flags, D3D12_RESOURCE_FLAG_ALLOW_CROSS_ADAPTER);
            assert!(export.export_from_heap);
            assert_eq!(export.import_byte_size, 4096);
            assert_eq!(clear.start, 0);
            assert_eq!(clear.end, 4096);
            assert_eq!(graphics.size, 4096);
        }
        AllocationRequest::Vulkan { .. } => panic!("a DX12 device must not plan a Vulkan request"),
    }
}

#[test]
fn vulkan_allocation_starts_with_the_buffer_request() {
    let device = Device::from_negotiation(BackendData::Vulkan(SharingMode::DmaBuf));
    match device.allocate_shared_buffers(12).unwrap() {
        AllocationRequest::Vulkan { mode, buffer } => {
            assert_eq!(mode, SharingMode::DmaBuf);
            assert_eq!(buffer.size, 12);
            assert_eq!(buffer.usage, 0x1 | 0x2);
            assert!(buffer.exclusive_sharing);
            assert_eq!(buffer.external_handle_type, 0x200);
        }
        AllocationRequest::Dx12 { .. } => panic!("a Vulkan device must not plan a DX12 request"),
    }
}

#[test]
fn handle_types_match_the_graphics_header() {
    assert_eq!(vulkan_handle_type(SharingMode::Fd), 0x1);
    assert_eq!(vulkan_handle_type(SharingMode::Win32), 0x2);
    assert_eq!(vulkan_handle_type(SharingMode::DmaBuf), 0x200);
}

#[test]
fn align_up_rounds_to_the_next_multiple() {
    assert_eq!(checked_align_up(0, 256), Some(0));
    assert_eq!(checked_align_up(1, 256), Some(256));
    assert_eq!(checked_align_up(256, 256), Some(256));
    assert_eq!(checked_align_up(257, 256), Some(512));
    assert_eq!(checked_align_up(1000, 1), Some(1000));
    assert_eq!(checked_align_up(u64::MAX, 2), None);
    assert_eq!(checked_align_up(u64::MAX, 1), Some(u64::MAX));
}

#[test]
fn memory_type_scan_takes_the_first_qualifying_type() {
    // Type 0 lacks the device-local property, type 1 is not in the buffer's
    // required-type mask, type 2 qualifies; type 3 would too but comes later.
    let flags = vec![0u32, 1u32, 1u32, 1u32];
    let r = find_memory_type(0b1101, &flags, VK_MEMORY_PROPERTY_DEVICE_LOCAL);
    assert_eq!(r, Some(2));
}

#[test]
fn memory_type_scan_reports_absence() {
    let flags = vec![0u32, 0u32];
    assert_eq!(find_memory_type(0b11, &flags, VK_MEMORY_PROPERTY_DEVICE_LOCAL), None);
    let empty: Vec<u32> = vec![];
    assert_eq!(find_memory_type(0b11, &empty, VK_MEMORY_PROPERTY_DEVICE_LOCAL), None);
}

#[test]
fn padded_allocation_keeps_the_logical_size() {
    // One byte with a 256-byte required alignment: the allocation is padded,
    // the buffer the graphics API sees still reports one byte.
    let flags = vec![1u32];
    let plan = plan_vulkan_memory(SharingMode::Fd, 1, 256, 1, &flags).unwrap();
    assert_eq!(plan.allocation_size, 256);
    assert_eq!(plan.memory_type_index, 0);
    assert_eq!(plan.bind_offset, 0);
    assert_eq!(plan.export_handle_type, 0x1);
    assert_eq!(plan.win32_access, None);
    let graphics = plan_graphics_buffer(1);
    assert_eq!(graphics.size, 1);
}

#[test]
fn win32_allocation_carries_the_access_descriptor() {
    let flags = vec![1u32];
    let plan = plan_vulkan_memory(SharingMode::Win32, 64, 64, 1, &flags).unwrap();
    assert_eq!(plan.allocation_size, 64);
    assert_eq!(plan.export_handle_type, 0x2);
    assert_eq!(plan.win32_access, Some(ACCESS_GENERIC_ALL));
    assert_eq!(ACCESS_GENERIC_ALL, 268435456);
}

#[test]
fn no_device_local_type_is_out_of_memory() {
    let flags = vec![0u32, 0u32];
    let r = plan_vulkan_memory(SharingMode::Fd, 16, 16, 0b11, &flags);
    assert_eq!(r.unwrap_err(), SharedBufferCreateError::OutOfMemory);
}

#[test]
fn overflowing_padded_size_is_out_of_memory() {
    let flags = vec![1u32];
    let r = plan_vulkan_memory(SharingMode::Fd, u64::MAX, 4096, 1, &flags);
    assert_eq!(r.unwrap_err(), SharedBufferCreateError::OutOfMemory);
}

#[test]
fn vulkan_export_goes_through_the_mode_matching_entry_point() {
    let win32 = plan_vulkan_export(SharingMode::Win32, 32);
    assert!(!win32.uses_fd);
    assert_eq!(win32.vulkan_handle_type, 0x2);
    assert_eq!(win32.accel_memory_type, 4);
    assert_eq!(win32.import_byte_size, 32);

    let fd = plan_vulkan_export(SharingMode::Fd, 32);
    assert!(fd.uses_fd);
    assert_eq!(fd.vulkan_handle_type, 0x1);
    assert_eq!(fd.accel_memory_type, 1);

    let dma = plan_vulkan_export(SharingMode::DmaBuf, 32);
    assert!(dma.uses_fd);
    assert_eq!(dma.vulkan_handle_type, 0x200);
    assert_eq!(dma.accel_memory_type, 2);
}

#[test]
fn dx12_heap_is_custom_device_local_and_shared() {
    let heap = plan_dx12_heap(65536);
    assert_eq!(heap.size, 65536);
    assert_eq!(heap.heap_type, 4);
    assert_eq!(heap.cpu_page_property, 1);
    assert_eq!(heap.memory_pool, 1);
    assert_eq!(heap.creation_node_mask, 0);
    assert_eq!(heap.visible_node_mask, 0);
    assert_eq!(heap.alignment, 65536);
    assert_eq!(heap.flags, 0x21);
}

#[test]
fn dx12_resource_is_a_placed_cross_adapter_buffer() {
    let resource = plan_dx12_resource(512);
    assert_eq!(resource.dimension, 1);
    assert_eq!(resource.alignment, 0);
    assert_eq!(resource.width, 512);
    assert_eq!(resource.height, 1);
    assert_eq!(resource.depth_or_array_size, 1);
    assert_eq!(resource.mip_levels, 1);
    assert_eq!(resource.format, 0);
    assert_eq!(resource.sample_count, 1);
    assert_eq!(resource.sample_quality, 0);
    assert_eq!(resource.layout, 1);
    assert_eq!(resource.flags, 0x10);
    assert_eq!(resource.heap_offset, 0);
    assert_eq!(resource.initial_state, 0);
}

#[test]
fn dx12_export_leaves_from_the_heap_with_full_access() {
    let export = plan_dx12_export(512);
    assert!(export.export_from_heap);
    assert_eq!(export.access, ACCESS_GENERIC_ALL);
    assert_eq!(export.accel_memory_type, 4);
    assert_eq!(export.import_byte_size, 512);
}

#[test]
fn clear_covers_the_whole_logical_range() {
    for size in [1u64, 12, 4096, 1 << 30] {
        let clear = plan_clear(size);
        assert_eq!(clear.start, 0);
        assert_eq!(clear.end, size);
    }
}

#[test]
fn graphics_wrapper_uses_copy_usages_only() {
    let d = plan_graphics_buffer(12);
    assert_eq!(d.usage, GRAPHICS_BUFFER_USAGE_COPY_SRC | GRAPHICS_BUFFER_USAGE_COPY_DST);
    assert_eq!(d.usage, 12);
    assert!(!d.mapped_at_creation);
}

#[test]
fn buffer_request_declares_the_negotiated_handle_type() {
    let request = plan_vulkan_buffer(SharingMode::Win32, 128);
    assert_eq!(request.size, 128);
    assert_eq!(request.external_handle_type, 0x2);
}

#[test]
fn backend_data_knows_its_backend_and_mode() {
    assert_eq!(BackendData::Dx12.as_backend(), Backend::Dx12);
    assert_eq!(BackendData::Vulkan(SharingMode::Fd).as_backend(), Backend::Vulkan);
    assert_eq!(BackendData::Dx12.sharing_mode(), SharingMode::Win32);
    assert_eq!(BackendData::Vulkan(SharingMode::DmaBuf).sharing_mode(), SharingMode::DmaBuf);
}

#[test]
fn device_keeps_the_negotiated_mode_for_its_lifetime() {
    let device = Device::from_negotiation(BackendData::Vulkan(SharingMode::Win32));
    assert_eq!(device.backend(), Backend::Vulkan);
    assert_eq!(device.sharing_mode(), SharingMode::Win32);
    let dx12 = Device::from_negotiation(BackendData::Dx12);
    assert_eq!(dx12.backend(), Backend::Dx12);
    assert_eq!(dx12.sharing_mode(), SharingMode::Win32);
}
