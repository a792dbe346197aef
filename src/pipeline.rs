use vstd::prelude::*;

use crate::Handle;

verus! {

/// The graphics pipeline and its layout.
#[derive(Clone, Copy, Debug, PartialEq, Eq, Structural)]
pub struct Pipeline {
    pub pipeline: Handle,
    pub layout: Handle,
}

impl Pipeline {
    /// The objects to destroy, the pipeline before its layout.
    pub fn cleanup(&self) -> (r: Vec<Handle>)
        ensures
            r@ == seq![self.pipeline, self.layout],
    {
        let mut v: Vec<Handle> = Vec::new();
        v.push(self.pipeline);
        v.push(self.layout);
        v
    }
}

} // verus!
