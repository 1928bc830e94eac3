//! Fixed configuration of the renderer: window size, frame-slot count, and
//! the raw codes of the Vulkan formats and present modes the swapchain logic
//! decides between.

use vstd::prelude::*;

verus! {

/// Initial window width in pixels, used when the surface leaves the extent open.
pub const WINDOW_WIDTH: u32 = 800;

/// Initial window height in pixels, used when the surface leaves the extent open.
pub const WINDOW_HEIGHT: u32 = 600;

/// Number of frame slots cycled by the render loop.
pub const MAX_FRAMES_IN_FLIGHT: u32 = 2;

/// Raw code of the 8-bit RGBA sRGB image format (`VK_FORMAT_R8G8B8A8_SRGB`).
pub const FORMAT_R8G8B8A8_SRGB: i32 = 43;

/// Raw code of the sRGB non-linear color space (`VK_COLOR_SPACE_SRGB_NONLINEAR_KHR`).
pub const COLOR_SPACE_SRGB_NONLINEAR: i32 = 0;

/// Raw code of the mailbox present mode (`VK_PRESENT_MODE_MAILBOX_KHR`).
pub const PRESENT_MODE_MAILBOX: i32 = 1;

/// Raw code of the first-in-first-out present mode (`VK_PRESENT_MODE_FIFO_KHR`).
pub const PRESENT_MODE_FIFO: i32 = 2;

/// The swapchain reports this width when the surface extent is decided by the
/// window instead (`0xFFFF_FFFF`).
pub const EXTENT_UNDEFINED: u32 = 0xFFFF_FFFF;

} // verus!
