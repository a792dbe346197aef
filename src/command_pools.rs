use vstd::prelude::*;

use crate::error::RendererError;
use crate::pipeline::Pipeline;
use crate::swapchain::{Extent2D, Swapchain};
use crate::Handle;

verus! {

/// The command pool of the graphics queue family and that of the transfer family.
#[derive(Clone, Copy, Debug, PartialEq, Eq, Structural)]
pub struct CommandPools {
    pub commandpool_graphics: Handle,
    pub commandpool_transfer: Handle,
}

impl CommandPools {
    /// The pools to destroy, graphics first.
    pub fn cleanup(&self) -> (r: Vec<Handle>)
        ensures
            r@ == seq![self.commandpool_graphics, self.commandpool_transfer],
    {
        let mut v: Vec<Handle> = Vec::new();
        v.push(self.commandpool_graphics);
        v.push(self.commandpool_transfer);
        v
    }
}

/// What one command buffer is recorded with: begin the render pass on `framebuffer`
/// over the whole `extent`, bind `pipeline`, draw `vertex_count` vertices of
/// `instance_count` instances, end the render pass.
#[derive(Clone, Copy, Debug, PartialEq, Eq, Structural)]
pub struct RecordingJob {
    pub command_buffer: Handle,
    pub render_pass: Handle,
    pub framebuffer: Handle,
    pub pipeline: Handle,
    pub extent: Extent2D,
    pub vertex_count: u32,
    pub instance_count: u32,
}

/// The one-time recording of the command buffers: command buffer `i` draws a single
/// point into framebuffer `i`. There cannot be more command buffers than framebuffers.
pub fn recording_plan(
    command_buffers: &Vec<Handle>,
    render_pass: Handle,
    swapchain: &Swapchain,
    pipeline: &Pipeline,
) -> (r: Result<Vec<RecordingJob>, RendererError>)
    ensures
        command_buffers.len() > swapchain.framebuffers.len() ==> r == Err::<
            Vec<RecordingJob>,
            RendererError,
        >(RendererError::ImageCountMismatch),
        command_buffers.len() <= swapchain.framebuffers.len() ==> r is Ok,
        r matches Ok(jobs) ==> jobs.len() == command_buffers.len() && forall|i: int|
            0 <= i < jobs.len() ==> #[trigger] jobs@[i] == (RecordingJob {
                command_buffer: command_buffers@[i],
                render_pass,
                framebuffer: swapchain.framebuffers@[i],
                pipeline: pipeline.pipeline,
                extent: swapchain.extent,
                vertex_count: 1,
                instance_count: 1,
            }),
{
    if command_buffers.len() > swapchain.framebuffers.len() {
        return Err(RendererError::ImageCountMismatch);
    }
    let mut jobs: Vec<RecordingJob> = Vec::new();
    let mut i: usize = 0;
    while i < command_buffers.len()
        invariant
            i <= command_buffers.len() <= swapchain.framebuffers.len(),
            jobs.len() == i,
            forall|j: int|
                0 <= j < i ==> #[trigger] jobs@[j] == (RecordingJob {
                    command_buffer: command_buffers@[j],
                    render_pass,
                    framebuffer: swapchain.framebuffers@[j],
                    pipeline: pipeline.pipeline,
                    extent: swapchain.extent,
                    vertex_count: 1,
                    instance_count: 1,
                }),
        decreases command_buffers.len() - i,
    {
        jobs.push(
            RecordingJob {
                command_buffer: command_buffers[i],
                render_pass,
                framebuffer: swapchain.framebuffers[i],
                pipeline: pipeline.pipeline,
                extent: swapchain.extent,
                vertex_count: 1,
                instance_count: 1,
            },
        );
        i = i + 1;
    }
    Ok(jobs)
}

} // verus!
