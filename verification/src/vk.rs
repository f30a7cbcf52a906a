//! The raw Vulkan values the renderer's decisions read, and the one
//! question about them that is answered by the Vulkan binding crates.

use vstd::prelude::*;

verus! {

/// `VkCompositeAlphaFlagBitsKHR`.
pub const COMPOSITE_ALPHA_OPAQUE: u32 = 0x1;

pub const COMPOSITE_ALPHA_PRE_MULTIPLIED: u32 = 0x2;

pub const COMPOSITE_ALPHA_POST_MULTIPLIED: u32 = 0x4;

pub const COMPOSITE_ALPHA_INHERIT: u32 = 0x8;

/// `VkSurfaceTransformFlagBitsKHR`.
pub const SURFACE_TRANSFORM_IDENTITY: u32 = 0x1;

/// `VkPresentModeKHR`.
pub const PRESENT_MODE_IMMEDIATE: i32 = 0;

pub const PRESENT_MODE_MAILBOX: i32 = 1;

pub const PRESENT_MODE_FIFO: i32 = 2;

pub const PRESENT_MODE_FIFO_RELAXED: i32 = 3;

/// `VkSharingMode`.
pub const SHARING_MODE_EXCLUSIVE: i32 = 0;

/// `VkImageUsageFlagBits`.
pub const IMAGE_USAGE_COLOR_ATTACHMENT: u32 = 0x10;

/// `VkQueueFlagBits`.
pub const QUEUE_GRAPHICS: u32 = 0x1;

pub const QUEUE_COMPUTE: u32 = 0x2;

pub const QUEUE_TRANSFER: u32 = 0x4;

/// `VkFormatFeatureFlagBits`.
pub const FORMAT_FEATURE_DEPTH_STENCIL_ATTACHMENT: u32 = 0x200;

/// `VkFormat`.
pub const FORMAT_D32_SFLOAT: i32 = 126;

pub const FORMAT_D32_SFLOAT_S8_UINT: i32 = 130;

/// `VkPhysicalDeviceType`.
pub const DEVICE_TYPE_OTHER: i32 = 0;

pub const DEVICE_TYPE_INTEGRATED_GPU: i32 = 1;

pub const DEVICE_TYPE_DISCRETE_GPU: i32 = 2;

pub const DEVICE_TYPE_VIRTUAL_GPU: i32 = 3;

pub const DEVICE_TYPE_CPU: i32 = 4;

/// The width a surface reports when its extent is left to the swapchain.
pub const EXTENT_UNDEFINED: u32 = 0xFFFF_FFFF;

/// Whether every bit of `flag` is set in `flags`.
pub open spec fn spec_contains(flags: u32, flag: u32) -> bool {
    flags & flag == flag
}

/// Whether every bit of `flag` is set in `flags`: the subset test of a
/// Vulkan flag set.
pub fn contains(flags: u32, flag: u32) -> (subset: bool)
    ensures
        subset == spec_contains(flags, flag),
{
    flags & flag == flag
}

/// Whether bort-vk counts the `VkFormat` with this raw value as sRGB
/// encoded. The answer depends on the format alone.
pub uninterp spec fn format_is_srgb(format: i32) -> bool;

/// Asks `bort_vk::is_format_srgb` about the format with this raw value.
/// Believed, not proved: the answer is a function of the format, here
/// called `format_is_srgb`.
#[verifier::external_body]
pub(crate) fn query_format_srgb(format: i32) -> (srgb: bool)
    ensures
        srgb == format_is_srgb(format),
{
    bort_vk::is_format_srgb(ash::vk::Format::from_raw(format))
}

} // verus!
