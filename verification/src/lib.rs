//! Decision core of a shared-memory buffer bridge between a graphics device
//! stack (DX12 or Vulkan) and a hardware image-processing accelerator.
//!
//! One physical allocation must be visible from both device contexts. The
//! bridge negotiates an OS-level sharing primitive both sides support, plans
//! the backend-specific allocation and export/import requests, and keeps the
//! backing allocation alive until both buffer views are gone.
//!
//! Everything here computes over plain values: capability bits, sizes,
//! alignments and request descriptors. The surrounding driver shell performs
//! the actual driver calls and feeds their results back into these functions.

pub mod buffer;
pub mod device;
pub mod dx12;
pub mod errors;
pub mod negotiate;
pub mod sharing;
pub mod vulkan;
