//! Render pass, pipeline and framebuffer descriptions.
//!
//! After negotiation the remaining stages are fixed-function: one render
//! pass with a single cleared-and-stored color attachment transitioned to
//! presentation, one pipeline with no vertex input, triangle-list topology,
//! back-face culling and dynamic viewport state, and one framebuffer per
//! swapchain image view in index order. The descriptions below pin every
//! such setting, and the two defensive checks of this stage — the shader
//! entry point and the subpass index — are decided here.

use vstd::prelude::*;

use crate::errors::AppError;
use crate::swapchain::Extent2D;

verus! {

/// How an attachment's contents are treated when the pass begins.
#[derive(Debug, Clone, Copy, PartialEq, Eq, Structural)]
pub enum LoadOp {
    /// Cleared to the clear value.
    Clear,
    /// Loaded from memory.
    Load,
    /// Left undefined.
    DontCare,
}

/// How an attachment's contents are treated when the pass ends.
#[derive(Debug, Clone, Copy, PartialEq, Eq, Structural)]
pub enum StoreOp {
    /// Written back to memory.
    Store,
    /// Discarded.
    DontCare,
}

/// The image layouts this bootstrap transitions between.
#[derive(Debug, Clone, Copy, PartialEq, Eq, Structural)]
pub enum ImageLayout {
    /// Contents undefined; the cheapest source of a transition.
    Undefined,
    /// Optimal for color output during a subpass.
    ColorAttachmentOptimal,
    /// Ready to be handed to the presentation engine.
    PresentSrc,
}

/// The single-pass, single-color-attachment render pass description.
#[derive(Debug, Clone, Copy, PartialEq, Eq, Structural)]
pub struct RenderPassDesc {
    /// Numeric code of the color attachment's pixel format.
    pub attachment_format: u32,
    pub samples: u32,
    pub load_op: LoadOp,
    pub store_op: StoreOp,
    pub initial_layout: ImageLayout,
    pub final_layout: ImageLayout,
    /// Index of the color attachment referenced by the one subpass.
    pub color_attachment_index: u32,
    /// Layout of that attachment while the subpass renders.
    pub subpass_layout: ImageLayout,
    pub subpass_count: u32,
}

/// Describes the render pass for the chosen swapchain format: a single
/// subpass over a single color attachment, cleared on load, stored on
/// store, and transitioned to the presentation layout when the pass ends.
pub fn describe_render_pass(format: u32) -> (r: RenderPassDesc)
    ensures
        r.attachment_format == format,
        r.samples == 1,
        r.load_op == LoadOp::Clear,
        r.store_op == StoreOp::Store,
        r.initial_layout == ImageLayout::Undefined,
        r.final_layout == ImageLayout::PresentSrc,
        r.color_attachment_index == 0,
        r.subpass_layout == ImageLayout::ColorAttachmentOptimal,
        r.subpass_count == 1,
{
    RenderPassDesc {
        attachment_format: format,
        samples: 1,
        load_op: LoadOp::Clear,
        store_op: StoreOp::Store,
        initial_layout: ImageLayout::Undefined,
        final_layout: ImageLayout::PresentSrc,
        color_attachment_index: 0,
        subpass_layout: ImageLayout::ColorAttachmentOptimal,
        subpass_count: 1,
    }
}

/// Resolves a shader entry point looked up by name in a module: the lookup
/// result is handed in, and its absence is the entry-point failure.
pub fn resolve_entry_point<T>(entry_point: Option<T>) -> (r: Result<T, AppError>)
    ensures
        entry_point matches Some(e) ==> r == Ok::<T, AppError>(e),
        entry_point is None ==> r == Err::<T, AppError>(AppError::EntryPointNotFound),
{
    match entry_point {
        Some(e) => Ok(e),
        None => Err(AppError::EntryPointNotFound),
    }
}

/// Selects a subpass by index against the render pass's subpass count,
/// failing with the index-tagged condition when the pass has too few.
pub fn select_subpass(subpass_count: u32, index: u32) -> (r: Result<u32, AppError>)
    ensures
        index < subpass_count ==> r == Ok::<u32, AppError>(index),
        index >= subpass_count ==> r == Err::<u32, AppError>(AppError::SubpassNotFound(index)),
{
    if index < subpass_count {
        Ok(index)
    } else {
        Err(AppError::SubpassNotFound(index))
    }
}

/// The primitive topologies a pipeline can assemble.
#[derive(Debug, Clone, Copy, PartialEq, Eq, Structural)]
pub enum PrimitiveTopology {
    PointList,
    LineList,
    TriangleList,
    TriangleStrip,
}

/// Which triangle faces the rasterizer culls.
#[derive(Debug, Clone, Copy, PartialEq, Eq, Structural)]
pub enum CullMode {
    NoCulling,
    Front,
    Back,
}

/// Which winding counts as the front face.
#[derive(Debug, Clone, Copy, PartialEq, Eq, Structural)]
pub enum FrontFace {
    Clockwise,
    CounterClockwise,
}

/// The fixed-function pipeline description of this bootstrap.
#[derive(Debug, Clone, Copy, PartialEq, Eq, Structural)]
pub struct PipelineDesc {
    pub vertex_binding_count: u32,
    pub vertex_attribute_count: u32,
    pub topology: PrimitiveTopology,
    /// Initial viewport and scissor extent; both are dynamic state set per
    /// frame, initialized to the swapchain extent.
    pub viewport_extent: Extent2D,
    pub scissor_extent: Extent2D,
    pub dynamic_viewport: bool,
    pub dynamic_scissor: bool,
    pub cull_mode: CullMode,
    pub front_face: FrontFace,
    pub rasterization_samples: u32,
    /// One blend attachment state per color attachment of the subpass.
    pub blend_attachment_count: u32,
    pub blend_enabled: bool,
    pub descriptor_set_count: u32,
    pub push_constant_count: u32,
    pub subpass_index: u32,
}

/// Describes the pipeline's fixed-function state: no vertex input,
/// triangle-list topology, viewport and scissor dynamic and initialized to
/// the swapchain extent, back-face culling with clockwise front faces, no
/// multisampling, one default (non-blending) attachment state per color
/// attachment, an empty layout, and subpass zero.
pub fn describe_pipeline(extent: Extent2D, color_attachment_count: u32) -> (r: PipelineDesc)
    ensures
        r.vertex_binding_count == 0,
        r.vertex_attribute_count == 0,
        r.topology == PrimitiveTopology::TriangleList,
        r.viewport_extent == extent,
        r.scissor_extent == extent,
        r.dynamic_viewport,
        r.dynamic_scissor,
        r.cull_mode == CullMode::Back,
        r.front_face == FrontFace::Clockwise,
        r.rasterization_samples == 1,
        r.blend_attachment_count == color_attachment_count,
        !r.blend_enabled,
        r.descriptor_set_count == 0,
        r.push_constant_count == 0,
        r.subpass_index == 0,
{
    PipelineDesc {
        vertex_binding_count: 0,
        vertex_attribute_count: 0,
        topology: PrimitiveTopology::TriangleList,
        viewport_extent: extent,
        scissor_extent: extent,
        dynamic_viewport: true,
        dynamic_scissor: true,
        cull_mode: CullMode::Back,
        front_face: FrontFace::Clockwise,
        rasterization_samples: 1,
        blend_attachment_count: color_attachment_count,
        blend_enabled: false,
        descriptor_set_count: 0,
        push_constant_count: 0,
        subpass_index: 0,
    }
}

/// Plans the framebuffers: one per swapchain image view, in index order,
/// each binding exactly that view as the sole attachment of the render
/// pass.
pub fn plan_framebuffers(view_count: usize) -> (r: Vec<usize>)
    ensures
        r@.len() == view_count,
        forall|i: int| 0 <= i < view_count ==> r@[i] == i,
{
    let mut plan: Vec<usize> = Vec::new();
    let mut k: usize = 0;
    while k < view_count
        invariant
            0 <= k <= view_count,
            plan@.len() == k,
            forall|i: int| 0 <= i < k ==> plan@[i] == i,
        decreases view_count - k,
    {
        plan.push(k);
        k = k + 1;
    }
    plan
}

} // verus!
