//! Swapchain configuration decisions: which surface format, present mode and
//! extent to ask for, how many images to request, and how the images are
//! shared between the graphics and the present queue family.
//!
//! The functions work on plain values copied out of the surface capability
//! queries; the swapchain itself is created and owned outside the library.

use vstd::prelude::*;

use crate::constants::{
    COLOR_SPACE_SRGB_NONLINEAR, EXTENT_UNDEFINED, FORMAT_R8G8B8A8_SRGB, PRESENT_MODE_FIFO,
    PRESENT_MODE_MAILBOX, WINDOW_HEIGHT, WINDOW_WIDTH,
};
use crate::structures::QueueFamilyIndices;

verus! {

/// A surface format as its raw Vulkan codes: a pixel format and a color space.
#[derive(Clone, Copy, PartialEq, Eq, Structural, Debug)]
pub struct SurfaceFormat {
    pub format: i32,
    pub color_space: i32,
}

/// A width and a height in pixels.
#[derive(Clone, Copy, PartialEq, Eq, Structural, Debug)]
pub struct Extent2D {
    pub width: u32,
    pub height: u32,
}

/// The surface capability values the swapchain configuration depends on.
#[derive(Clone, Copy, PartialEq, Eq, Structural, Debug)]
pub struct SurfaceCapabilities {
    /// Extent fixed by the surface; width `EXTENT_UNDEFINED` means the
    /// window chooses.
    pub current_extent: Extent2D,
    pub min_image_extent: Extent2D,
    pub max_image_extent: Extent2D,
    pub min_image_count: u32,
    /// Zero means the surface puts no upper bound on the image count.
    pub max_image_count: u32,
}

/// The format preferred for rendering: 8-bit RGBA with sRGB encoding in the
/// sRGB non-linear color space.
pub open spec fn is_preferred_format(f: SurfaceFormat) -> bool {
    f.format == FORMAT_R8G8B8A8_SRGB && f.color_space == COLOR_SPACE_SRGB_NONLINEAR
}

/// Picks the first available format that is preferred, and falls back to the
/// first format offered when none is.
pub fn choose_swap_surface_format(available_formats: &Vec<SurfaceFormat>) -> (r: SurfaceFormat)
    requires
        available_formats@.len() > 0,
    ensures
        (exists|i: int|
            0 <= i < available_formats@.len() && is_preferred_format(available_formats@[i]))
            ==> (exists|i: int|
            {
                &&& 0 <= i < available_formats@.len()
                &&& r == available_formats@[i]
                &&& is_preferred_format(available_formats@[i])
                &&& forall|j: int| 0 <= j < i ==> !is_preferred_format(available_formats@[j])
            }),
        (forall|i: int|
            0 <= i < available_formats@.len() ==> !is_preferred_format(available_formats@[i]))
            ==> r == available_formats@[0],
{
    let n = available_formats.len();
    let mut idx: usize = 0;
    while idx < n
        invariant
            n == available_formats@.len(),
            0 <= idx <= n,
            forall|j: int| 0 <= j < idx ==> !is_preferred_format(available_formats@[j]),
        decreases n - idx,
    {
        let f = available_formats[idx];
        if f.format == FORMAT_R8G8B8A8_SRGB && f.color_space == COLOR_SPACE_SRGB_NONLINEAR {
            return f;
        }
        idx = idx + 1;
    }
    available_formats[0]
}

/// Picks the mailbox present mode when the surface offers it, and the
/// always-available first-in-first-out mode otherwise.
pub fn choose_swap_present_mode(available_present_modes: &Vec<i32>) -> (r: i32)
    ensures
        (exists|i: int|
            0 <= i < available_present_modes@.len()
                && available_present_modes@[i] == PRESENT_MODE_MAILBOX) ==> r
            == PRESENT_MODE_MAILBOX,
        (forall|i: int|
            0 <= i < available_present_modes@.len() ==> available_present_modes@[i]
                != PRESENT_MODE_MAILBOX) ==> r == PRESENT_MODE_FIFO,
{
    let n = available_present_modes.len();
    let mut idx: usize = 0;
    while idx < n
        invariant
            n == available_present_modes@.len(),
            0 <= idx <= n,
            forall|j: int| 0 <= j < idx ==> available_present_modes@[j] != PRESENT_MODE_MAILBOX,
        decreases n - idx,
    {
        if available_present_modes[idx] == PRESENT_MODE_MAILBOX {
            return PRESENT_MODE_MAILBOX;
        }
        idx = idx + 1;
    }
    PRESENT_MODE_FIFO
}

/// A value clamped into an inclusive range.
pub open spec fn spec_clamp(v: u32, lo: u32, hi: u32) -> u32 {
    if v < lo {
        lo
    } else if v > hi {
        hi
    } else {
        v
    }
}

/// Takes the extent the surface fixed, or, when the surface leaves it to the
/// window, the window size clamped into the allowed image-extent range.
pub fn choose_swap_extent(capabilities: &SurfaceCapabilities) -> (r: Extent2D)
    requires
        capabilities.current_extent.width == EXTENT_UNDEFINED ==> {
            &&& capabilities.min_image_extent.width <= capabilities.max_image_extent.width
            &&& capabilities.min_image_extent.height <= capabilities.max_image_extent.height
        },
    ensures
        capabilities.current_extent.width != EXTENT_UNDEFINED ==> r == capabilities.current_extent,
        capabilities.current_extent.width == EXTENT_UNDEFINED ==> r == (Extent2D {
            width: spec_clamp(
                WINDOW_WIDTH,
                capabilities.min_image_extent.width,
                capabilities.max_image_extent.width,
            ),
            height: spec_clamp(
                WINDOW_HEIGHT,
                capabilities.min_image_extent.height,
                capabilities.max_image_extent.height,
            ),
        }),
{
    if capabilities.current_extent.width != EXTENT_UNDEFINED {
        capabilities.current_extent
    } else {
        Extent2D {
            width: clamp_u32(
                WINDOW_WIDTH,
                capabilities.min_image_extent.width,
                capabilities.max_image_extent.width,
            ),
            height: clamp_u32(
                WINDOW_HEIGHT,
                capabilities.min_image_extent.height,
                capabilities.max_image_extent.height,
            ),
        }
    }
}

/// Clamps `v` into the range from `lo` to `hi`.
fn clamp_u32(v: u32, lo: u32, hi: u32) -> (r: u32)
    requires
        lo <= hi,
    ensures
        r == spec_clamp(v, lo, hi),
{
    if v < lo {
        lo
    } else if v > hi {
        hi
    } else {
        v
    }
}

/// One more image than the minimum the surface demands, capped by the
/// surface's maximum when it has one.
pub fn swapchain_image_count(capabilities: &SurfaceCapabilities) -> (r: u32)
    requires
        capabilities.min_image_count < u32::MAX,
    ensures
        r == if capabilities.max_image_count > 0 && capabilities.min_image_count + 1
            > capabilities.max_image_count {
            capabilities.max_image_count as int
        } else {
            capabilities.min_image_count + 1
        },
{
    let desired = capabilities.min_image_count + 1;
    if capabilities.max_image_count > 0 && desired > capabilities.max_image_count {
        capabilities.max_image_count
    } else {
        desired
    }
}

/// How the swapchain images are shared between queue families: concurrently
/// between the two distinct families, or exclusively when one family does both.
pub struct ImageSharing {
    /// True for concurrent sharing, false for exclusive ownership.
    pub concurrent: bool,
    /// The queue families named in the swapchain: both families when they
    /// differ, none when a single family owns the images.
    pub queue_family_indices: Vec<u32>,
}

/// Decides image sharing from the chosen queue families: concurrent between
/// the graphics and the present family when they differ, exclusive otherwise.
pub fn choose_image_sharing(queue_family: &QueueFamilyIndices) -> (r: ImageSharing)
    requires
        queue_family.graphics_family is Some,
        queue_family.present_family is Some,
    ensures
        queue_family.graphics_family != queue_family.present_family ==> {
            &&& r.concurrent
            &&& r.queue_family_indices@ == seq![
                queue_family.graphics_family->0,
                queue_family.present_family->0,
            ]
        },
        queue_family.graphics_family == queue_family.present_family ==> {
            &&& !r.concurrent
            &&& r.queue_family_indices@ == Seq::<u32>::empty()
        },
{
    let g = queue_family.graphics_family.unwrap();
    let p = queue_family.present_family.unwrap();
    if g != p {
        let mut indices: Vec<u32> = Vec::new();
        indices.push(g);
        indices.push(p);
        assert(indices@ =~= seq![g, p]);
        ImageSharing { concurrent: true, queue_family_indices: indices }
    } else {
        let indices: Vec<u32> = Vec::new();
        assert(indices@ =~= Seq::<u32>::empty());
        ImageSharing { concurrent: false, queue_family_indices: indices }
    }
}

} // verus!
