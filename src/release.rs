use vstd::prelude::*;

verus! {

/// A native object to destroy or an allocation to free, by raw handle.
#[derive(Debug, Copy, Clone, PartialEq, Eq, Structural)]
pub enum Release {
    DestroyBuffer(u64),
    DestroyImage(u64),
    FreeMemory(u64),
    DestroyShaderModule(u64),
    DestroyPipeline(u64),
    DestroyCommandPool(u64),
    DestroyDevice,
    DestroyDebugMessenger(u64),
    DestroyInstance,
}

} // verus!
