//! Plain data types shared by the device-selection and swapchain logic.

use vstd::prelude::*;

verus! {

/// Whether validation layers are requested, and which layer names they need.
pub struct ValidationInfo {
    pub enabled: bool,
    pub required_validation_layers: [&'static str; 1],
}

/// The device extensions the renderer cannot run without.
pub struct DeviceExtension {
    pub names: [&'static str; 1],
}

/// The queue family indices chosen for graphics work and for presentation.
/// A field is `None` while no family with the capability has been found.
#[derive(Clone, Copy, PartialEq, Eq, Structural, Debug)]
pub struct QueueFamilyIndices {
    pub graphics_family: Option<u32>,
    pub present_family: Option<u32>,
}

impl QueueFamilyIndices {
    /// Both a graphics-capable and a present-capable family have been found.
    pub fn is_complete(&self) -> (r: bool)
        ensures
            r == (self.graphics_family is Some && self.present_family is Some),
    {
        self.graphics_family.is_some() && self.present_family.is_some()
    }
}

} // verus!
