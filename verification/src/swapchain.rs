//! Swapchain negotiation.
//!
//! Out of the surface's reported capabilities, (format, color space) pairs
//! and present modes, the negotiator picks every parameter of the image
//! chain: format, present mode, extent, image count and sharing mode. Each
//! choice has a fixed preference and a fixed fallback, stated exactly in the
//! contracts below.

use vstd::prelude::*;

use crate::errors::AppError;
use crate::queue_families::QueueFamilyIndices;

verus! {

/// The numeric code of the 8-bit BGRA format with sRGB transfer.
pub const FORMAT_B8G8R8A8_SRGB: u32 = 50;

/// The numeric code of the sRGB non-linear color space.
pub const COLOR_SPACE_SRGB_NONLINEAR: u32 = 0;

/// The numeric code of the immediate present mode.
pub const PRESENT_MODE_IMMEDIATE: u32 = 0;

/// The numeric code of the mailbox (low-latency, no tearing) present mode.
pub const PRESENT_MODE_MAILBOX: u32 = 1;

/// The numeric code of the FIFO present mode, which every driver supports.
pub const PRESENT_MODE_FIFO: u32 = 2;

/// A pixel extent in two dimensions.
#[derive(Debug, Clone, Copy, PartialEq, Eq, Structural)]
pub struct Extent2D {
    pub width: u32,
    pub height: u32,
}

/// One supported (format, color space) pair, by numeric code.
#[derive(Debug, Clone, Copy, PartialEq, Eq, Structural)]
pub struct SurfaceFormat {
    pub format: u32,
    pub color_space: u32,
}

/// The pair the negotiator prefers: 8-bit BGRA with sRGB transfer in the
/// sRGB non-linear color space.
pub open spec fn preferred_surface_format() -> SurfaceFormat {
    SurfaceFormat { format: FORMAT_B8G8R8A8_SRGB, color_space: COLOR_SPACE_SRGB_NONLINEAR }
}

/// The surface capabilities the negotiator reads: image-count bounds, the
/// current extent (absent when the surface leaves the size to the window),
/// the extent bounds, and the transform to carry into the image chain.
#[derive(Debug, Clone, Copy, PartialEq, Eq, Structural)]
pub struct SurfaceCapabilities {
    pub min_image_count: u32,
    /// Absent when the driver places no upper bound on the image count.
    pub max_image_count: Option<u32>,
    /// Absent when the surface size is decided by the swapchain extent.
    pub current_extent: Option<Extent2D>,
    pub min_image_extent: Extent2D,
    pub max_image_extent: Extent2D,
    /// Numeric code of the surface's current transform, carried through.
    pub current_transform: u32,
}

impl SurfaceCapabilities {
    /// What the driver guarantees of every reported capability record: at
    /// least one image, bounds in order, and room for the one extra image
    /// the negotiator requests.
    pub open spec fn wf(self) -> bool {
        &&& 1 <= self.min_image_count < u32::MAX
        &&& self.max_image_count matches Some(m) ==> self.min_image_count <= m
        &&& self.min_image_extent.width <= self.max_image_extent.width
        &&& self.min_image_extent.height <= self.max_image_extent.height
    }
}

/// Per-device snapshot of what the surface supports, gathered once during
/// device selection and reused for negotiation.
#[derive(Debug, Clone, PartialEq, Eq)]
pub struct SwapChainSupportDetails {
    pub capabilities: SurfaceCapabilities,
    pub formats: Vec<SurfaceFormat>,
    pub present_modes: Vec<u32>,
}

impl SwapChainSupportDetails {
    /// A support snapshot is adequate exactly when both the format set and
    /// the present-mode set are non-empty.
    pub open spec fn spec_is_adequate(self) -> bool {
        self.formats@.len() > 0 && self.present_modes@.len() > 0
    }

    /// Decides adequacy of this snapshot.
    pub fn is_adequate(&self) -> (r: bool)
        ensures
            r == self.spec_is_adequate(),
    {
        self.formats.len() > 0 && self.present_modes.len() > 0
    }
}

/// How the swapchain images are shared between the queue families.
#[derive(Debug, Clone, Copy, PartialEq, Eq, Structural)]
pub enum ImageSharing {
    /// One family owns the images outright.
    Exclusive,
    /// The graphics and present families share the images concurrently.
    Concurrent(u32, u32),
}

/// Picks the (format, color space) pair: the preferred pair when the set
/// contains it anywhere, else the first reported pair, and an error exactly
/// when the set is empty.
pub fn choose_swap_surface_format(formats: &Vec<SurfaceFormat>) -> (r: Result<
    SurfaceFormat,
    AppError,
>)
    ensures
        formats@.contains(preferred_surface_format()) ==> r == Ok::<SurfaceFormat, AppError>(
            preferred_surface_format(),
        ),
        !formats@.contains(preferred_surface_format()) && formats@.len() > 0 ==> r == Ok::<
            SurfaceFormat,
            AppError,
        >(formats@[0]),
        formats@.len() == 0 ==> r == Err::<SurfaceFormat, AppError>(
            AppError::SwapChainFormatUnavailable,
        ),
{
    let n = formats.len();
    let mut k: usize = 0;
    while k < n
        invariant
            n == formats@.len(),
            0 <= k <= n,
            forall|j: int| 0 <= j < k ==> formats@[j] != preferred_surface_format(),
        decreases n - k,
    {
        let f = formats[k];
        if f.format == FORMAT_B8G8R8A8_SRGB && f.color_space == COLOR_SPACE_SRGB_NONLINEAR {
            assert(formats@[k as int] == preferred_surface_format());
            return Ok(f);
        }
        k = k + 1;
    }
    assert(!formats@.contains(preferred_surface_format()));
    if n > 0 {
        Ok(formats[0])
    } else {
        Err(AppError::SwapChainFormatUnavailable)
    }
}

/// Picks the present mode: mailbox when available, else FIFO.
pub fn choose_swap_present_mode(present_modes: &Vec<u32>) -> (r: u32)
    ensures
        r == (if present_modes@.contains(PRESENT_MODE_MAILBOX) {
            PRESENT_MODE_MAILBOX
        } else {
            PRESENT_MODE_FIFO
        }),
{
    let n = present_modes.len();
    let mut k: usize = 0;
    while k < n
        invariant
            n == present_modes@.len(),
            0 <= k <= n,
            forall|j: int| 0 <= j < k ==> present_modes@[j] != PRESENT_MODE_MAILBOX,
        decreases n - k,
    {
        if present_modes[k] == PRESENT_MODE_MAILBOX {
            assert(present_modes@[k as int] == PRESENT_MODE_MAILBOX);
            return PRESENT_MODE_MAILBOX;
        }
        k = k + 1;
    }
    assert(!present_modes@.contains(PRESENT_MODE_MAILBOX));
    PRESENT_MODE_FIFO
}

/// `x` clamped into `[lo, hi]`.
pub open spec fn spec_clamp_u32(x: u32, lo: u32, hi: u32) -> u32 {
    if x < lo {
        lo
    } else if x > hi {
        hi
    } else {
        x
    }
}

/// Clamps one component into the supported range.
fn clamp_u32(x: u32, lo: u32, hi: u32) -> (r: u32)
    requires
        lo <= hi,
    ensures
        r == spec_clamp_u32(x, lo, hi),
{
    if x < lo {
        lo
    } else if x > hi {
        hi
    } else {
        x
    }
}

/// The extent the negotiator settles on: the surface's current extent when
/// the surface defines one, else the window's pixel size clamped
/// componentwise into the supported range.
pub open spec fn chosen_extent(caps: SurfaceCapabilities, window_extent: Extent2D) -> Extent2D {
    match caps.current_extent {
        Some(e) => e,
        None => Extent2D {
            width: spec_clamp_u32(
                window_extent.width,
                caps.min_image_extent.width,
                caps.max_image_extent.width,
            ),
            height: spec_clamp_u32(
                window_extent.height,
                caps.min_image_extent.height,
                caps.max_image_extent.height,
            ),
        },
    }
}

/// Picks the swap extent, honouring a surface-defined current extent
/// verbatim and otherwise clamping the window size.
pub fn choose_swap_extent(caps: &SurfaceCapabilities, window_extent: Extent2D) -> (r: Extent2D)
    requires
        caps.wf(),
    ensures
        r == chosen_extent(*caps, window_extent),
{
    match caps.current_extent {
        Some(e) => e,
        None => Extent2D {
            width: clamp_u32(
                window_extent.width,
                caps.min_image_extent.width,
                caps.max_image_extent.width,
            ),
            height: clamp_u32(
                window_extent.height,
                caps.min_image_extent.height,
                caps.max_image_extent.height,
            ),
        },
    }
}

/// The image count the negotiator requests: one above the minimum, clamped
/// down to the maximum when the driver bounds the count.
pub open spec fn negotiated_image_count(caps: SurfaceCapabilities) -> u32
    recommends
        caps.wf(),
{
    match caps.max_image_count {
        Some(m) => if caps.min_image_count + 1 > m {
            m
        } else {
            (caps.min_image_count + 1) as u32
        },
        None => (caps.min_image_count + 1) as u32,
    }
}

/// Picks the image count: capability minimum plus one, clamped down to the
/// capability maximum when that is finite and smaller.
pub fn choose_image_count(caps: &SurfaceCapabilities) -> (r: u32)
    requires
        caps.wf(),
    ensures
        r == negotiated_image_count(*caps),
{
    let wanted = caps.min_image_count + 1;
    match caps.max_image_count {
        Some(m) => if wanted > m {
            m
        } else {
            wanted
        },
        None => wanted,
    }
}

/// The sharing mode that fits the resolved queue families: exclusive when
/// graphics and present coincide, else concurrent over exactly those two
/// families.
pub open spec fn chosen_sharing(indices: QueueFamilyIndices) -> ImageSharing {
    if indices.graphics_family == indices.present_family {
        ImageSharing::Exclusive
    } else {
        ImageSharing::Concurrent(indices.graphics_family, indices.present_family)
    }
}

/// Picks the image sharing mode from the resolved queue families.
pub fn choose_sharing_mode(indices: &QueueFamilyIndices) -> (r: ImageSharing)
    ensures
        r == chosen_sharing(*indices),
{
    if indices.graphics_family == indices.present_family {
        ImageSharing::Exclusive
    } else {
        ImageSharing::Concurrent(indices.graphics_family, indices.present_family)
    }
}

/// Bit code of the color-attachment image usage.
pub const IMAGE_USAGE_COLOR_ATTACHMENT: u32 = 0x10;

/// Numeric code of the opaque composite-alpha mode.
pub const COMPOSITE_ALPHA_OPAQUE: u32 = 0x1;

/// Everything the driver needs to create the image chain, fixed by the
/// negotiation: the chosen format, present mode, extent, image count and
/// sharing mode, the carried-over transform, and the constant settings of
/// this bootstrap (one array layer, color-attachment usage, opaque
/// compositing, clipped presentation).
#[derive(Debug, Clone, Copy, PartialEq, Eq, Structural)]
pub struct SwapchainConfig {
    pub format: SurfaceFormat,
    pub present_mode: u32,
    pub extent: Extent2D,
    pub min_image_count: u32,
    pub sharing: ImageSharing,
    pub pre_transform: u32,
    pub image_array_layers: u32,
    pub image_usage: u32,
    pub composite_alpha: u32,
    pub clipped: bool,
}

impl SwapChainSupportDetails {
    /// Negotiates the whole swapchain configuration from this snapshot, the
    /// window's current pixel size and the resolved queue families. The
    /// negotiation succeeds exactly when the format set is non-empty — the
    /// one failure is the empty-format condition — and every field of the
    /// result is fixed by the choice functions above.
    pub fn negotiate(
        &self,
        window_extent: Extent2D,
        indices: &QueueFamilyIndices,
    ) -> (r: Result<SwapchainConfig, AppError>)
        requires
            self.capabilities.wf(),
        ensures
            r is Ok <==> self.formats@.len() > 0,
            self.formats@.len() == 0 ==> r == Err::<SwapchainConfig, AppError>(
                AppError::SwapChainFormatUnavailable,
            ),
            r matches Ok(c) ==> {
                &&& (if self.formats@.contains(preferred_surface_format()) {
                    c.format == preferred_surface_format()
                } else {
                    c.format == self.formats@[0]
                })
                &&& c.present_mode == (if self.present_modes@.contains(PRESENT_MODE_MAILBOX) {
                    PRESENT_MODE_MAILBOX
                } else {
                    PRESENT_MODE_FIFO
                })
                &&& c.extent == chosen_extent(self.capabilities, window_extent)
                &&& c.min_image_count == negotiated_image_count(self.capabilities)
                &&& c.sharing == chosen_sharing(*indices)
                &&& c.pre_transform == self.capabilities.current_transform
                &&& c.image_array_layers == 1
                &&& c.image_usage == IMAGE_USAGE_COLOR_ATTACHMENT
                &&& c.composite_alpha == COMPOSITE_ALPHA_OPAQUE
                &&& c.clipped == true
            },
    {
        let format = match choose_swap_surface_format(&self.formats) {
            Ok(f) => f,
            Err(e) => {
                return Err(e);
            },
        };
        let present_mode = choose_swap_present_mode(&self.present_modes);
        let extent = choose_swap_extent(&self.capabilities, window_extent);
        let min_image_count = choose_image_count(&self.capabilities);
        let sharing = choose_sharing_mode(indices);
        Ok(
            SwapchainConfig {
                format,
                present_mode,
                extent,
                min_image_count,
                sharing,
                pre_transform: self.capabilities.current_transform,
                image_array_layers: 1,
                image_usage: IMAGE_USAGE_COLOR_ATTACHMENT,
                composite_alpha: COMPOSITE_ALPHA_OPAQUE,
                clipped: true,
            },
        )
    }
}

} // verus!
