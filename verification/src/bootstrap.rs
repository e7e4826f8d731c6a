//! The bootstrap state machine.
//!
//! The sequence is strictly linear: nine stages, each either completing and
//! handing control to the next, or failing and ending the whole bootstrap at
//! that stage. There are no cycles and no reentry; the terminal states are
//! readiness after the last stage and failure at any stage. In particular,
//! the diagnostics stage — where missing validation layers are detected —
//! stands strictly before device enumeration.

use vstd::prelude::*;

verus! {

/// The nine stages of the bootstrap, in dependency order.
#[derive(Debug, Clone, Copy, PartialEq, Eq, Structural)]
pub enum BootstrapStage {
    /// Load the library, compute extensions, create the instance.
    Instance,
    /// Negotiate validation layers and register the messenger.
    Diagnostics,
    /// Bind the window to a surface.
    Surface,
    /// Enumerate and select the physical device.
    DeviceSelection,
    /// Create the device and resolve its queues.
    LogicalDevice,
    /// Negotiate and create the image chain and its views.
    Swapchain,
    /// Describe the single draw pass.
    RenderPass,
    /// Assemble shader stages and fixed-function state.
    Pipeline,
    /// Bind each image view to the pass.
    Framebuffers,
}

/// Where the bootstrap stands: at a stage, finished, or failed at a stage.
#[derive(Debug, Clone, Copy, PartialEq, Eq, Structural)]
pub enum BootstrapState {
    /// The given stage is about to run.
    At(BootstrapStage),
    /// Every stage completed.
    Ready,
    /// The given stage failed; nothing further runs.
    FailedAt(BootstrapStage),
}

/// The position of a stage in the strict construction order.
pub open spec fn stage_index(stage: BootstrapStage) -> int {
    match stage {
        BootstrapStage::Instance => 0,
        BootstrapStage::Diagnostics => 1,
        BootstrapStage::Surface => 2,
        BootstrapStage::DeviceSelection => 3,
        BootstrapStage::LogicalDevice => 4,
        BootstrapStage::Swapchain => 5,
        BootstrapStage::RenderPass => 6,
        BootstrapStage::Pipeline => 7,
        BootstrapStage::Framebuffers => 8,
    }
}

/// The stage that runs after `stage` when it completes.
pub open spec fn spec_next_stage(stage: BootstrapStage) -> BootstrapState {
    match stage {
        BootstrapStage::Instance => BootstrapState::At(BootstrapStage::Diagnostics),
        BootstrapStage::Diagnostics => BootstrapState::At(BootstrapStage::Surface),
        BootstrapStage::Surface => BootstrapState::At(BootstrapStage::DeviceSelection),
        BootstrapStage::DeviceSelection => BootstrapState::At(BootstrapStage::LogicalDevice),
        BootstrapStage::LogicalDevice => BootstrapState::At(BootstrapStage::Swapchain),
        BootstrapStage::Swapchain => BootstrapState::At(BootstrapStage::RenderPass),
        BootstrapStage::RenderPass => BootstrapState::At(BootstrapStage::Pipeline),
        BootstrapStage::Pipeline => BootstrapState::At(BootstrapStage::Framebuffers),
        BootstrapStage::Framebuffers => BootstrapState::Ready,
    }
}

/// Advances the bootstrap by one stage outcome: failure ends it at the
/// running stage; success hands control to the next stage in order, and to
/// readiness after the last.
pub fn step(state: BootstrapState, succeeded: bool) -> (r: BootstrapState)
    requires
        state matches BootstrapState::At(_),
    ensures
        state matches BootstrapState::At(s) ==> (if succeeded {
            r == spec_next_stage(s)
        } else {
            r == BootstrapState::FailedAt(s)
        }),
        r matches BootstrapState::At(t) ==> (state matches BootstrapState::At(s) && stage_index(t)
            == stage_index(s) + 1),
{
    match state {
        BootstrapState::At(s) => {
            if !succeeded {
                BootstrapState::FailedAt(s)
            } else {
                match s {
                    BootstrapStage::Instance => BootstrapState::At(BootstrapStage::Diagnostics),
                    BootstrapStage::Diagnostics => BootstrapState::At(BootstrapStage::Surface),
                    BootstrapStage::Surface => BootstrapState::At(BootstrapStage::DeviceSelection),
                    BootstrapStage::DeviceSelection => BootstrapState::At(
                        BootstrapStage::LogicalDevice,
                    ),
                    BootstrapStage::LogicalDevice => BootstrapState::At(BootstrapStage::Swapchain),
                    BootstrapStage::Swapchain => BootstrapState::At(BootstrapStage::RenderPass),
                    BootstrapStage::RenderPass => BootstrapState::At(BootstrapStage::Pipeline),
                    BootstrapStage::Pipeline => BootstrapState::At(BootstrapStage::Framebuffers),
                    BootstrapStage::Framebuffers => BootstrapState::Ready,
                }
            }
        },
        _ => state,
    }
}

/// The order is strictly forward: every non-terminal step lands exactly one
/// stage later, so no stage runs twice and no stage is skipped.
pub proof fn lemma_stages_strictly_forward(stage: BootstrapStage)
    ensures
        spec_next_stage(stage) matches BootstrapState::At(t) ==> stage_index(t) == stage_index(
            stage,
        ) + 1,
        spec_next_stage(stage) is Ready <==> stage_index(stage) == 8,
{
}

/// Validation layers are negotiated at the diagnostics stage, strictly
/// before any physical device is enumerated: a missing required layer ends
/// the bootstrap while device selection is still ahead.
pub proof fn lemma_layers_checked_before_enumeration()
    ensures
        stage_index(BootstrapStage::Diagnostics) < stage_index(BootstrapStage::DeviceSelection),
{
}

} // verus!
