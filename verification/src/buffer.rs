//! Lifetime and ownership of one shared allocation.
//!
//! One physical allocation is viewed through two independent APIs: a
//! graphics-side buffer handle and an accelerator-side buffer handle. The
//! backing allocation — the DX12 heap or the Vulkan device-memory block —
//! is owned exclusively by the allocation token; both views merely alias
//! it. The token must be destroyed after both views, and destroying either
//! view alone must not free the backing memory.

use vstd::prelude::*;

use crate::device::{spec_clear_covers, ClearCommand};
use crate::sharing::Backend;

verus! {

/// One physical memory allocation viewed through two device contexts.
///
/// The three liveness fields track the strict destruction order the
/// drivers demand: views first, backing allocation last. The release
/// methods are the only way to clear them, and their contracts refuse any
/// other order.
pub struct SharedBuffer {
    backend: Backend,
    logical_size: u64,
    allocation_size: u64,
    graphics_view_alive: bool,
    accelerator_view_alive: bool,
    allocation_alive: bool,
}

impl SharedBuffer {
    /// The backend that allocated this buffer.
    pub closed spec fn spec_backend(&self) -> Backend {
        self.backend
    }

    /// The byte count the caller asked for; what both views report.
    pub closed spec fn spec_logical_size(&self) -> u64 {
        self.logical_size
    }

    /// The byte count of the backing allocation, padded up to the
    /// driver's required alignment.
    pub closed spec fn spec_allocation_size(&self) -> u64 {
        self.allocation_size
    }

    /// Whether the graphics-side view still exists.
    pub closed spec fn spec_graphics_view_alive(&self) -> bool {
        self.graphics_view_alive
    }

    /// Whether the accelerator-side view still exists.
    pub closed spec fn spec_accelerator_view_alive(&self) -> bool {
        self.accelerator_view_alive
    }

    /// Whether the backing allocation still exists.
    pub closed spec fn spec_allocation_alive(&self) -> bool {
        self.allocation_alive
    }

    /// The ownership invariant: while either view exists the backing
    /// allocation exists, and the sizes are coherent.
    pub open spec fn wf(&self) -> bool {
        &&& (self.spec_graphics_view_alive() || self.spec_accelerator_view_alive())
            ==> self.spec_allocation_alive()
        &&& 0 < self.spec_logical_size() <= self.spec_allocation_size()
    }

    /// Assemble the buffer after a successful backend allocation: the
    /// backing allocation, both views, and the sizes they report. The
    /// clear command is demanded so that no buffer is handed out whose
    /// first `logical_size` bytes were not put into a defined state.
    pub fn assemble(
        backend: Backend,
        logical_size: u64,
        allocation_size: u64,
        clear: &ClearCommand,
    ) -> (b: SharedBuffer)
        requires
            0 < logical_size <= allocation_size,
            spec_clear_covers(*clear, logical_size),
        ensures
            b.wf(),
            b.spec_backend() == backend,
            b.spec_logical_size() == logical_size,
            b.spec_allocation_size() == allocation_size,
            b.spec_graphics_view_alive(),
            b.spec_accelerator_view_alive(),
            b.spec_allocation_alive(),
    {
        SharedBuffer {
            backend,
            logical_size,
            allocation_size,
            graphics_view_alive: true,
            accelerator_view_alive: true,
            allocation_alive: true,
        }
    }

    /// The size both views report to their APIs.
    pub fn logical_size(&self) -> (s: u64)
        ensures
            s == self.spec_logical_size(),
    {
        self.logical_size
    }

    /// The padded size of the backing allocation.
    pub fn allocation_size(&self) -> (s: u64)
        ensures
            s == self.spec_allocation_size(),
    {
        self.allocation_size
    }

    /// Destroy the graphics-side view alone. The accelerator-side view
    /// and the backing allocation are untouched: the view was an alias,
    /// not an owner, so the accelerator keeps addressing valid memory.
    pub fn release_graphics_view(&mut self)
        requires
            old(self).wf(),
            old(self).spec_graphics_view_alive(),
        ensures
            final(self).wf(),
            !final(self).spec_graphics_view_alive(),
            final(self).spec_accelerator_view_alive() == old(self).spec_accelerator_view_alive(),
            final(self).spec_allocation_alive() == old(self).spec_allocation_alive(),
            final(self).spec_backend() == old(self).spec_backend(),
            final(self).spec_logical_size() == old(self).spec_logical_size(),
            final(self).spec_allocation_size() == old(self).spec_allocation_size(),
    {
        self.graphics_view_alive = false;
    }

    /// Destroy the accelerator-side view alone; the graphics-side view
    /// and the backing allocation are untouched.
    pub fn release_accelerator_view(&mut self)
        requires
            old(self).wf(),
            old(self).spec_accelerator_view_alive(),
        ensures
            final(self).wf(),
            !final(self).spec_accelerator_view_alive(),
            final(self).spec_graphics_view_alive() == old(self).spec_graphics_view_alive(),
            final(self).spec_allocation_alive() == old(self).spec_allocation_alive(),
            final(self).spec_backend() == old(self).spec_backend(),
            final(self).spec_logical_size() == old(self).spec_logical_size(),
            final(self).spec_allocation_size() == old(self).spec_allocation_size(),
    {
        self.accelerator_view_alive = false;
    }

    /// Free the backing allocation. Both views must already be gone:
    /// freeing the heap or memory block earlier would cut off the
    /// physical memory under a still-reachable view.
    pub fn release_allocation(&mut self)
        requires
            old(self).wf(),
            !old(self).spec_graphics_view_alive(),
            !old(self).spec_accelerator_view_alive(),
            old(self).spec_allocation_alive(),
        ensures
            final(self).wf(),
            !final(self).spec_graphics_view_alive(),
            !final(self).spec_accelerator_view_alive(),
            !final(self).spec_allocation_alive(),
    {
        self.allocation_alive = false;
    }

    /// Tear the whole structure down in the one admissible order:
    /// graphics view, then accelerator view, then the backing allocation.
    pub fn teardown(self)
        requires
            self.wf(),
            self.spec_graphics_view_alive(),
            self.spec_accelerator_view_alive(),
            self.spec_allocation_alive(),
    {
        let mut buffer = self;
        buffer.release_graphics_view();
        buffer.release_accelerator_view();
        buffer.release_allocation();
    }
}

} // verus!
