use vstd::prelude::*;

verus! {

/// Failures of renderer initialization that the library itself decides.
#[derive(Clone, Copy, Debug, PartialEq, Eq, Structural)]
pub enum RendererError {
    /// The instance reported no physical device at all.
    NoSuitablePhysicalDevice,
    /// No queue family can run graphics work (or none can run transfer work).
    NoSuitableQueueFamily,
    /// The surface does not offer the surface format the renderer draws in.
    FormatUnsupported,
    /// The per-image objects handed over do not match the swapchain's image count.
    ImageCountMismatch,
}

} // verus!
