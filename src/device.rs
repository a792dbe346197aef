use vstd::prelude::*;

use crate::error::RendererError;
use crate::queue::QueueFamilies;
use crate::Handle;

verus! {

/// The two queues the renderer submits to.
#[derive(Clone, Copy, Debug, PartialEq, Eq, Structural)]
pub struct Queues {
    pub graphics_queue: Handle,
    pub transfer_queue: Handle,
}

/// A chosen physical device, the logical device made from it, its queue families and
/// its queues.
#[derive(Clone, Copy, Debug, PartialEq, Eq, Structural)]
pub struct Device {
    pub physical_device: Handle,
    pub logical_device: Handle,
    pub queue_families: QueueFamilies,
    pub queues: Queues,
}

impl Device {
    /// The physical device the renderer runs on: the first one enumerated.
    pub fn get_physical_device(physical_devices: &Vec<Handle>) -> (r: Result<Handle, RendererError>)
        ensures
            physical_devices.len() > 0 ==> r == Ok::<Handle, RendererError>(physical_devices@[0]),
            physical_devices.len() == 0 ==> r == Err::<Handle, RendererError>(
                RendererError::NoSuitablePhysicalDevice,
            ),
    {
        if physical_devices.len() > 0 {
            Ok(physical_devices[0])
        } else {
            Err(RendererError::NoSuitablePhysicalDevice)
        }
    }
}

} // verus!
