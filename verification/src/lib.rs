//! Verified core of an interactive renderer: the channel discipline between
//! the window, engine and render threads, the swapchain lifecycle, frame
//! pacing, and the selection policies applied to what a surface reports.

pub mod channel;
pub mod command;
pub mod config;
pub mod surface;
pub mod vk;
pub mod swapchain;
pub mod cursor;
pub mod lifecycle;
pub mod engine;
pub mod device;
pub mod resources;
