use vulkt::errors::AppError;
use vulkt::queue_families::QueueFamilyIndices;
use vulkt::swapchain::{
    choose_image_count, choose_sharing_mode, choose_swap_extent, choose_swap_present_mode,
    choose_swap_surface_format, Extent2D, ImageSharing, SurfaceCapabilities, SurfaceFormat,
    SwapChainSupportDetails, COLOR_SPACE_SRGB_NONLINEAR, COMPOSITE_ALPHA_OPAQUE,
    FORMAT_B8G8R8A8_SRGB, IMAGE_USAGE_COLOR_ATTACHMENT, PRESENT_MODE_FIFO,
    PRESENT_MODE_IMMEDIATE, PRESENT_MODE_MAILBOX,
};

fn caps(
    min_count: u32,
    max_count: Option<u32>,
    current: Option<Extent2D>,
    min_extent: (u32, u32),
    max_extent: (u32, u32),
) -> SurfaceCapabilities {
    SurfaceCapabilities {
        min_image_count: min_count,
        max_image_count: max_count,
        current_extent: current,
        min_image_extent: Extent2D { width: min_extent.0, height: min_extent.1 },
        max_image_extent: Extent2D { width: max_extent.0, height: max_extent.1 },
        current_transform: 0,
    }
}

#[test]
fn preferred_format_chosen_even_when_not_first() {
    let formats = vec![
        SurfaceFormat { format: 44, color_space: 7 },
        SurfaceFormat { format: FORMAT_B8G8R8A8_SRGB, color_space: COLOR_SPACE_SRGB_NONLINEAR },
        SurfaceFormat { format: 97, color_space: 1 },
    ];
    let chosen = choose_swap_surface_format(&formats).unwrap();
    assert_eq!(
        chosen,
        SurfaceFormat { format: FORMAT_B8G8R8A8_SRGB, color_space: COLOR_SPACE_SRGB_NONLINEAR }
    );
}

#[test]
fn preferred_format_needs_both_format_and_color_space() {
    // The right format in the wrong color space is not the preferred pair.
    let formats = vec![
        SurfaceFormat { format: FORMAT_B8G8R8A8_SRGB, color_space: 3 },
        SurfaceFormat { format: 44, color_space: COLOR_SPACE_SRGB_NONLINEAR },
    ];
    let chosen = choose_swap_surface_format(&formats).unwrap();
    assert_eq!(chosen, SurfaceFormat { format: FORMAT_B8G8R8A8_SRGB, color_space: 3 });
}

#[test]
fn first_format_when_preferred_absent() {
    let formats = vec![
        SurfaceFormat { format: 44, color_space: 7 },
        SurfaceFormat { format: 97, color_space: 1 },
    ];
    let chosen = choose_swap_surface_format(&formats).unwrap();
    assert_eq!(chosen, SurfaceFormat { format: 44, color_space: 7 });
}

#[test]
fn empty_format_set_is_fatal() {
    let formats: Vec<SurfaceFormat> = vec![];
    let err = choose_swap_surface_format(&formats).unwrap_err();
    assert_eq!(err, AppError::SwapChainFormatUnavailable);
}

#[test]
fn mailbox_present_mode_preferred() {
    let modes = vec![PRESENT_MODE_IMMEDIATE, PRESENT_MODE_FIFO, PRESENT_MODE_MAILBOX];
    assert_eq!(choose_swap_present_mode(&modes), PRESENT_MODE_MAILBOX);
}

#[test]
fn fifo_present_mode_fallback() {
    let modes = vec![PRESENT_MODE_FIFO];
    assert_eq!(choose_swap_present_mode(&modes), PRESENT_MODE_FIFO);
}

#[test]
fn current_extent_used_verbatim() {
    let caps = caps(
        1,
        None,
        Some(Extent2D { width: 123, height: 456 }),
        (1, 1),
        (4096, 4096),
    );
    let window = Extent2D { width: 1920, height: 1080 };
    assert_eq!(choose_swap_extent(&caps, window), Extent2D { width: 123, height: 456 });
}

#[test]
fn window_extent_clamped_into_supported_range() {
    let caps = caps(1, None, None, (1, 1), (1024, 1024));
    let window = Extent2D { width: 1920, height: 1080 };
    assert_eq!(choose_swap_extent(&caps, window), Extent2D { width: 1024, height: 1024 });
}

#[test]
fn window_extent_clamped_up_to_minimum() {
    let caps = caps(1, None, None, (640, 480), (4096, 4096));
    let window = Extent2D { width: 100, height: 5000 };
    assert_eq!(choose_swap_extent(&caps, window), Extent2D { width: 640, height: 4096 });
}

#[test]
fn image_count_clamped_down_to_maximum() {
    let c = caps(2, Some(2), None, (1, 1), (16, 16));
    assert_eq!(choose_image_count(&c), 2);
}

#[test]
fn image_count_is_min_plus_one_under_finite_maximum() {
    let c = caps(2, Some(5), None, (1, 1), (16, 16));
    assert_eq!(choose_image_count(&c), 3);
}

#[test]
fn image_count_is_min_plus_one_when_unbounded() {
    let c = caps(3, None, None, (1, 1), (16, 16));
    assert_eq!(choose_image_count(&c), 4);
}

#[test]
fn sharing_exclusive_when_families_coincide() {
    let indices = QueueFamilyIndices { graphics_family: 0, present_family: 0 };
    assert_eq!(choose_sharing_mode(&indices), ImageSharing::Exclusive);
}

#[test]
fn sharing_concurrent_over_both_distinct_families() {
    let indices = QueueFamilyIndices { graphics_family: 0, present_family: 2 };
    assert_eq!(choose_sharing_mode(&indices), ImageSharing::Concurrent(0, 2));
}

#[test]
fn negotiation_fixes_every_swapchain_parameter() {
    let support = SwapChainSupportDetails {
        capabilities: SurfaceCapabilities {
            min_image_count: 2,
            max_image_count: Some(8),
            current_extent: None,
            min_image_extent: Extent2D { width: 1, height: 1 },
            max_image_extent: Extent2D { width: 2048, height: 2048 },
            current_transform: 9,
        },
        formats: vec![
            SurfaceFormat { format: 97, color_space: 1 },
            SurfaceFormat {
                format: FORMAT_B8G8R8A8_SRGB,
                color_space: COLOR_SPACE_SRGB_NONLINEAR,
            },
        ],
        present_modes: vec![PRESENT_MODE_FIFO, PRESENT_MODE_MAILBOX],
    };
    assert!(support.is_adequate());
    let indices = QueueFamilyIndices { graphics_family: 1, present_family: 3 };
    let config = support
        .negotiate(Extent2D { width: 800, height: 600 }, &indices)
        .unwrap();
    assert_eq!(
        config.format,
        SurfaceFormat { format: FORMAT_B8G8R8A8_SRGB, color_space: COLOR_SPACE_SRGB_NONLINEAR }
    );
    assert_eq!(config.present_mode, PRESENT_MODE_MAILBOX);
    assert_eq!(config.extent, Extent2D { width: 800, height: 600 });
    assert_eq!(config.min_image_count, 3);
    assert_eq!(config.sharing, ImageSharing::Concurrent(1, 3));
    assert_eq!(config.pre_transform, 9);
    assert_eq!(config.image_array_layers, 1);
    assert_eq!(config.image_usage, IMAGE_USAGE_COLOR_ATTACHMENT);
    assert_eq!(config.composite_alpha, COMPOSITE_ALPHA_OPAQUE);
    assert!(config.clipped);
}

#[test]
fn negotiation_succeeds_on_any_non_empty_format_set() {
    // Neither the preferred format nor mailbox is offered; negotiation must
    // still succeed, falling back to the first format and FIFO.
    let support = SwapChainSupportDetails {
        capabilities: caps(2, None, Some(Extent2D { width: 64, height: 64 }), (1, 1), (64, 64)),
        formats: vec![SurfaceFormat { format: 97, color_space: 1 }],
        present_modes: vec![PRESENT_MODE_IMMEDIATE],
    };
    let indices = QueueFamilyIndices { graphics_family: 0, present_family: 0 };
    let config = support
        .negotiate(Extent2D { width: 32, height: 32 }, &indices)
        .unwrap();
    assert_eq!(config.format, SurfaceFormat { format: 97, color_space: 1 });
    assert_eq!(config.present_mode, PRESENT_MODE_FIFO);
    assert_eq!(config.extent, Extent2D { width: 64, height: 64 });
}

#[test]
fn negotiation_fails_only_on_empty_formats() {
    let support = SwapChainSupportDetails {
        capabilities: caps(2, Some(3), None, (1, 1), (64, 64)),
        formats: vec![],
        present_modes: vec![PRESENT_MODE_FIFO],
    };
    assert!(!support.is_adequate());
    let indices = QueueFamilyIndices { graphics_family: 0, present_family: 0 };
    let err = support
        .negotiate(Extent2D { width: 32, height: 32 }, &indices)
        .unwrap_err();
    assert_eq!(err, AppError::SwapChainFormatUnavailable);
}
