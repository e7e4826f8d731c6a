//! Decision core of a GPU bootstrap sequence.
//!
//! Bringing a graphics context up is a chain of capability negotiations:
//! pick the instance extensions and validation layers, select a physical
//! device with usable queue families, negotiate the swapchain (format,
//! present mode, extent, image count, sharing), and describe the render
//! pass, pipeline and framebuffers. Every one of those decisions is a pure
//! function from driver-reported data to a choice, and this crate states
//! and verifies each of them. The driver calls themselves (instance,
//! surface and swapchain creation, queue lookup) live outside, in the
//! unverified shell that feeds this crate plain values.

pub mod bootstrap;
pub mod debug;
pub mod errors;
pub mod instance;
pub mod logical_device;
pub mod physical_device;
pub mod pipeline;
pub mod queue_families;
pub mod swapchain;
