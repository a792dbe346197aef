use vstd::prelude::*;

pub mod command_pools;
pub mod device;
pub mod error;
pub mod frame;
pub mod lifetime;
pub mod pipeline;
pub mod queue;
pub mod swapchain;

verus! {

/// A raw GPU object handle, as the graphics API hands it out.
pub type Handle = u64;

} // verus!
