//! The resource and command-submission core of a small Vulkan-style
//! rendering engine: handle caches, owned device objects, the command
//! recording state machine and the per-frame synchronization chain.

pub mod cache;
pub mod error;
pub mod iteratorext;
pub mod text;
pub mod vm;
