//! Tunables of the engine and the renderer, gathered in one structure that
//! the components take at construction.

use vstd::prelude::*;

verus! {

/// Double buffering: the number of frames that may be submitted to the GPU
/// and not yet completed.
pub const MAX_FRAMES_IN_FLIGHT: usize = 2;

/// One second, the wait granted to a GPU fence.
pub const TIMEOUT_NANOSECS: u64 = 1_000_000_000;

/// How long the owner of the render thread waits for it to finish.
pub const RENDER_THREAD_WAIT_TIMEOUT_MILLIS: u64 = 2_000;

/// Consecutive fence timeouts tolerated before the device counts as hung.
pub const MAX_CONSECUTIVE_DEVICE_TIMEOUTS: u32 = 3;

/// Polls granted to a window or display handle that reports itself
/// unavailable, one millisecond apart.
pub const DISPLAY_UNAVAILABLE_TIMEOUT_POLLS: u32 = 10_000;

/// Size in bytes of the staging buffer the CPU reads back from.
pub const CPU_ACCESS_BUFFER_SIZE: u64 = 1024;

/// The names of the device extensions the renderer cannot do without:
/// the swapchain, the second synchronisation interface, and the fourth
/// maintenance extension.
pub fn required_device_extensions() -> (names: Vec<&'static str>)
    ensures
        names@.len() == 3,
        names@[0]@ == "VK_KHR_swapchain"@,
        names@[1]@ == "VK_KHR_synchronization2"@,
        names@[2]@ == "VK_KHR_maintenance4"@,
{
    let mut names: Vec<&'static str> = Vec::new();
    names.push("VK_KHR_swapchain");
    names.push("VK_KHR_synchronization2");
    names.push("VK_KHR_maintenance4");
    names
}

/// Switches that change what the renderer draws.
#[derive(Clone, Copy, Debug, PartialEq, Eq, Structural)]
pub struct RenderOptions {
    pub enable_aabb_wire_display: bool,
}

impl Default for RenderOptions {
    fn default() -> (options: Self)
        ensures
            !options.enable_aabb_wire_display,
    {
        RenderOptions { enable_aabb_wire_display: false }
    }
}

/// The tunables of one engine instance.
#[derive(Clone, Copy, Debug, PartialEq, Eq, Structural)]
pub struct EngineConfig {
    /// Frames that may be in flight at once; at least one.
    pub max_frames_in_flight: usize,
    /// Nanoseconds granted to one fence wait.
    pub fence_timeout_nanos: u64,
    /// Milliseconds the owner waits for the render thread at shutdown.
    pub join_timeout_millis: u64,
    /// Consecutive fence timeouts after which the device counts as hung;
    /// at least one.
    pub max_consecutive_timeouts: u32,
    /// Image count asked of the surface before clamping.
    pub preferred_image_count: u32,
}

impl EngineConfig {
    /// What every component relies on: there is at least one frame slot and
    /// at least one timeout is tolerated before escalation.
    pub open spec fn well_formed(&self) -> bool {
        &&& self.max_frames_in_flight >= 1
        &&& self.max_consecutive_timeouts >= 1
    }

    /// The configuration the engine starts with: double buffering, a one
    /// second fence wait and a two second join wait.
    pub fn standard() -> (config: Self)
        ensures
            config.well_formed(),
            config.max_frames_in_flight == MAX_FRAMES_IN_FLIGHT,
            config.fence_timeout_nanos == TIMEOUT_NANOSECS,
            config.join_timeout_millis == RENDER_THREAD_WAIT_TIMEOUT_MILLIS,
            config.max_consecutive_timeouts == MAX_CONSECUTIVE_DEVICE_TIMEOUTS,
            config.preferred_image_count == MAX_FRAMES_IN_FLIGHT,
    {
        EngineConfig {
            max_frames_in_flight: MAX_FRAMES_IN_FLIGHT,
            fence_timeout_nanos: TIMEOUT_NANOSECS,
            join_timeout_millis: RENDER_THREAD_WAIT_TIMEOUT_MILLIS,
            max_consecutive_timeouts: MAX_CONSECUTIVE_DEVICE_TIMEOUTS,
            preferred_image_count: 2,
        }
    }
}

} // verus!
