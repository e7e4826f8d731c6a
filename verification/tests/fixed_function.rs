use vulkt::bootstrap::{step, BootstrapStage, BootstrapState};
use vulkt::debug::{
    log_level_for_severity, populate_debug_messenger_config, LogLevel, SEVERITY_ERROR,
    SEVERITY_INFO, SEVERITY_VERBOSE, SEVERITY_WARNING, TYPE_GENERAL, TYPE_PERFORMANCE,
    TYPE_VALIDATION,
};
use vulkt::errors::{AppError, QueueFamilyType};
use vulkt::logical_device::{find_queue_position, unique_queue_family_indices};
use vulkt::pipeline::{
    describe_pipeline, describe_render_pass, plan_framebuffers, resolve_entry_point,
    select_subpass, CullMode, FrontFace, ImageLayout, LoadOp, PrimitiveTopology, StoreOp,
};
use vulkt::queue_families::QueueFamilyIndices;
use vulkt::swapchain::Extent2D;

#[test]
fn render_pass_describes_one_cleared_presentable_color_attachment() {
    let desc = describe_render_pass(50);
    assert_eq!(desc.attachment_format, 50);
    assert_eq!(desc.samples, 1);
    assert_eq!(desc.load_op, LoadOp::Clear);
    assert_eq!(desc.store_op, StoreOp::Store);
    assert_eq!(desc.initial_layout, ImageLayout::Undefined);
    assert_eq!(desc.final_layout, ImageLayout::PresentSrc);
    assert_eq!(desc.color_attachment_index, 0);
    assert_eq!(desc.subpass_layout, ImageLayout::ColorAttachmentOptimal);
    assert_eq!(desc.subpass_count, 1);
}

#[test]
fn pipeline_description_fixes_the_fixed_function_state() {
    let extent = Extent2D { width: 800, height: 600 };
    let desc = describe_pipeline(extent, 1);
    assert_eq!(desc.vertex_binding_count, 0);
    assert_eq!(desc.vertex_attribute_count, 0);
    assert_eq!(desc.topology, PrimitiveTopology::TriangleList);
    assert_eq!(desc.viewport_extent, extent);
    assert_eq!(desc.scissor_extent, extent);
    assert!(desc.dynamic_viewport);
    assert!(desc.dynamic_scissor);
    assert_eq!(desc.cull_mode, CullMode::Back);
    assert_eq!(desc.front_face, FrontFace::Clockwise);
    assert_eq!(desc.rasterization_samples, 1);
    assert_eq!(desc.blend_attachment_count, 1);
    assert!(!desc.blend_enabled);
    assert_eq!(desc.descriptor_set_count, 0);
    assert_eq!(desc.push_constant_count, 0);
    assert_eq!(desc.subpass_index, 0);
}

#[test]
fn subpass_zero_is_selected_when_present() {
    assert_eq!(select_subpass(1, 0).unwrap(), 0);
}

#[test]
fn missing_subpass_is_fatal_with_its_index() {
    assert_eq!(select_subpass(0, 0).unwrap_err(), AppError::SubpassNotFound(0));
}

#[test]
fn entry_point_resolution_hands_the_entry_point_through() {
    assert_eq!(resolve_entry_point(Some(7u32)).unwrap(), 7);
}

#[test]
fn missing_entry_point_is_fatal() {
    let err = resolve_entry_point::<u32>(None).unwrap_err();
    assert_eq!(err, AppError::EntryPointNotFound);
}

#[test]
fn one_framebuffer_per_view_in_index_order() {
    assert_eq!(plan_framebuffers(3), vec![0, 1, 2]);
    assert_eq!(plan_framebuffers(0), Vec::<usize>::new());
}

#[test]
fn coinciding_families_are_requested_once() {
    let indices = QueueFamilyIndices { graphics_family: 3, present_family: 3 };
    assert_eq!(unique_queue_family_indices(&indices), vec![3]);
}

#[test]
fn distinct_families_are_both_requested() {
    let indices = QueueFamilyIndices { graphics_family: 0, present_family: 2 };
    assert_eq!(unique_queue_family_indices(&indices), vec![0, 2]);
}

#[test]
fn queue_lookup_finds_the_first_queue_of_the_family() {
    let families = vec![2u32, 0, 0];
    assert_eq!(find_queue_position(&families, 0, QueueFamilyType::Graphics).unwrap(), 1);
}

#[test]
fn queue_lookup_failure_is_tagged_with_the_role() {
    let families = vec![2u32];
    let err = find_queue_position(&families, 0, QueueFamilyType::Present).unwrap_err();
    assert_eq!(err, AppError::QueueForDevice(QueueFamilyType::Present));
}

#[test]
fn severities_route_to_their_levels() {
    assert_eq!(log_level_for_severity(SEVERITY_ERROR), LogLevel::Error);
    assert_eq!(log_level_for_severity(SEVERITY_WARNING), LogLevel::Warn);
    assert_eq!(log_level_for_severity(SEVERITY_INFO), LogLevel::Info);
    assert_eq!(log_level_for_severity(SEVERITY_VERBOSE), LogLevel::Debug);
    assert_eq!(log_level_for_severity(0), LogLevel::Trace);
    // The highest severity bit decides.
    assert_eq!(log_level_for_severity(SEVERITY_ERROR | SEVERITY_INFO), LogLevel::Error);
    assert_eq!(log_level_for_severity(SEVERITY_WARNING | SEVERITY_VERBOSE), LogLevel::Warn);
}

#[test]
fn messenger_subscribes_to_every_severity_and_category() {
    let config = populate_debug_messenger_config();
    assert_eq!(
        config.severity_mask,
        SEVERITY_ERROR | SEVERITY_WARNING | SEVERITY_INFO | SEVERITY_VERBOSE
    );
    assert_eq!(config.type_mask, TYPE_GENERAL | TYPE_VALIDATION | TYPE_PERFORMANCE);
}

#[test]
fn bootstrap_walks_the_nine_stages_in_order_to_readiness() {
    let stages = [
        BootstrapStage::Instance,
        BootstrapStage::Diagnostics,
        BootstrapStage::Surface,
        BootstrapStage::DeviceSelection,
        BootstrapStage::LogicalDevice,
        BootstrapStage::Swapchain,
        BootstrapStage::RenderPass,
        BootstrapStage::Pipeline,
        BootstrapStage::Framebuffers,
    ];
    let mut state = BootstrapState::At(BootstrapStage::Instance);
    for expected in stages {
        assert_eq!(state, BootstrapState::At(expected));
        state = step(state, true);
    }
    assert_eq!(state, BootstrapState::Ready);
}

#[test]
fn a_failing_stage_ends_the_bootstrap_there() {
    // A missing validation layer fails the diagnostics stage, while device
    // selection is still ahead of it in the order.
    let at_diagnostics = step(BootstrapState::At(BootstrapStage::Instance), true);
    assert_eq!(at_diagnostics, BootstrapState::At(BootstrapStage::Diagnostics));
    let failed = step(at_diagnostics, false);
    assert_eq!(failed, BootstrapState::FailedAt(BootstrapStage::Diagnostics));
}
