use oidn_wgpu_interop::buffer::SharedBuffer;
use oidn_wgpu_interop::device::plan_clear;
use oidn_wgpu_interop::sharing::Backend;

fn fresh(logical: u64, allocation: u64) -> SharedBuffer {
    let clear = plan_clear(logical);
    SharedBuffer::assemble(Backend::Vulkan, logical, allocation, &clear)
}

#[test]
fn assembled_buffer_reports_both_sizes() {
    let buffer = fresh(1, 256);
    assert_eq!(buffer.logical_size(), 1);
    assert_eq!(buffer.allocation_size(), 256);
}

#[test]
fn dropping_the_graphics_view_keeps_the_accelerator_view_valid() {
    let mut buffer = fresh(64, 64);
    buffer.release_graphics_view();
    // The accelerator still addresses live backing memory: only the view
    // object is gone, the allocation token owns the bytes.
    assert_eq!(buffer.logical_size(), 64);
    buffer.release_accelerator_view();
    buffer.release_allocation();
}

#[test]
fn views_release_in_either_order() {
    let mut buffer = fresh(8, 8);
    buffer.release_accelerator_view();
    buffer.release_graphics_view();
    buffer.release_allocation();
}

#[test]
fn teardown_runs_the_canonical_order() {
    let buffer = fresh(4096, 4096);
    buffer.teardown();
}
