pub mod compile;
pub mod context;
pub mod debug;
pub mod device;
pub mod error;
pub mod event;
pub mod flow;
pub mod key;
pub mod pipeline;
pub mod release;
pub mod resource;
pub mod setup;
pub mod shader;
pub mod stage;
pub mod swapchain;
