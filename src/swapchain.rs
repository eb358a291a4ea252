use vstd::prelude::*;

verus! {

/// How many frames may be recorded ahead of presentation.
pub const MAX_FRAMES_IN_FLIGHT: u32 = 2;

/// The chain of images that frames are presented through; it holds nothing yet.
#[derive(Debug)]
pub struct Swapchain {}

impl Swapchain {
    pub fn new() -> (r: Result<Swapchain, anyhow::Error>)
        ensures
            r is Ok,
    {
        Ok(Swapchain {})
    }
}

} // verus!
