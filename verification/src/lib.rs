//! A verified frame scheduler for a double-buffered Vulkan-style render loop,
//! together with the pure decision logic of the surrounding setup code:
//! queue-family selection, swapchain configuration, command recording and
//! ordered teardown.

pub mod commands;
pub mod constants;
pub mod device;
pub mod scheduler;
pub mod structures;
pub mod swapchain;
pub mod teardown;

pub use structures::QueueFamilyIndices;
