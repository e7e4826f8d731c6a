//! The closed error taxonomy of the bootstrap.
//!
//! Every fatal condition of the sequence has one variant here, carrying the
//! originating payload as plain data. Failures of outside driver calls are
//! handed in as messages; the domain conditions carry the identity needed to
//! diagnose them (the missing layer names, the queue role, the subpass index).

use vstd::prelude::*;

verus! {

/// A logical queue role that the bootstrap must resolve to a family index.
#[derive(Debug, Clone, Copy, PartialEq, Eq, Structural)]
pub enum QueueFamilyType {
    Graphics,
    Present,
}

/// One terminal failure of the bootstrap sequence.
#[derive(Debug, Clone, PartialEq, Eq)]
pub enum AppError {
    /// No graphics API library could be loaded; carries the loader's message.
    LibraryUnavailable(String),
    /// An underlying driver or validation call failed; carries its message.
    Vulkan(String),
    /// The platform refused to bind the window to a surface.
    PlatformSurface(String),
    /// An integer could not be parsed from its textual form.
    ParseInt(String),
    /// Required validation layers are absent; carries the full missing set.
    RequiredLayers(Vec<String>),
    /// No enumerated physical device passed every suitability filter.
    PhysicalDevices,
    /// The created device exposes no queue for the given role.
    QueueForDevice(QueueFamilyType),
    /// The supported (format, color space) set of the surface is empty.
    SwapChainFormatUnavailable,
    /// A shader module does not expose the expected entry point.
    EntryPointNotFound,
    /// The render pass reports fewer subpasses than the requested index.
    SubpassNotFound(u32),
}

/// The result type of every fallible step of the bootstrap.
pub type AppResult<R> = Result<R, AppError>;

} // verus!
