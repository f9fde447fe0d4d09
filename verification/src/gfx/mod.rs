//! The graphics side: physical devices and their ranking, the bootstrap of
//! the graphics context, and what the library takes from the Vulkan bindings.

pub mod context;
pub mod debug;
pub mod device;
pub mod ranking;
pub mod vulkan;
