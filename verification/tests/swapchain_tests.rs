use metalshade::swapchain::{
    choose_image_count, choose_present_mode, choose_surface_format, clamp_extent, SurfaceCaps,
    SurfaceFormat, SwapchainSurface, COLOR_SPACE_SRGB_NONLINEAR, EXTENT_UNDEFINED,
    FORMAT_B8G8R8A8_UNORM, PRESENT_MODE_FIFO, PRESENT_MODE_MAILBOX,
};

fn caps_with_range(min: (u32, u32), max: (u32, u32)) -> SurfaceCaps {
    SurfaceCaps {
        current_w: EXTENT_UNDEFINED,
        current_h: 0,
        min_w: min.0,
        min_h: min.1,
        max_w: max.0,
        max_h: max.1,
        min_image_count: 2,
        max_image_count: 8,
    }
}

#[test]
fn format_prefers_bgra_srgb() {
    let formats = vec![
        SurfaceFormat { format: 37, color_space: 0 },
        SurfaceFormat { format: FORMAT_B8G8R8A8_UNORM, color_space: COLOR_SPACE_SRGB_NONLINEAR },
    ];
    let f = choose_surface_format(&formats);
    assert_eq!(f.format, FORMAT_B8G8R8A8_UNORM);
    assert_eq!(f.color_space, COLOR_SPACE_SRGB_NONLINEAR);
}

#[test]
fn format_falls_back_to_first() {
    let formats = vec![
        SurfaceFormat { format: 37, color_space: 5 },
        SurfaceFormat { format: 44, color_space: 9 },
    ];
    let f = choose_surface_format(&formats);
    assert_eq!(f, SurfaceFormat { format: 37, color_space: 5 });
}

#[test]
fn present_mode_prefers_mailbox() {
    assert_eq!(
        choose_present_mode(&vec![PRESENT_MODE_FIFO, PRESENT_MODE_MAILBOX]),
        PRESENT_MODE_MAILBOX
    );
    assert_eq!(choose_present_mode(&vec![PRESENT_MODE_FIFO]), PRESENT_MODE_FIFO);
    assert_eq!(choose_present_mode(&vec![]), PRESENT_MODE_FIFO);
}

#[test]
fn extent_clamps_window_size() {
    let caps = caps_with_range((100, 100), (1920, 1080));
    assert_eq!(clamp_extent(&caps, 4000, 50), (1920, 100));
    assert_eq!(clamp_extent(&caps, 800, 600), (800, 600));
}

#[test]
fn extent_honours_fixed_current() {
    let mut caps = caps_with_range((100, 100), (1920, 1080));
    caps.current_w = 1280;
    caps.current_h = 720;
    assert_eq!(clamp_extent(&caps, 4000, 4000), (1280, 720));
}

#[test]
fn image_count_min_plus_one_capped() {
    let mut caps = caps_with_range((1, 1), (10, 10));
    caps.min_image_count = 2;
    caps.max_image_count = 8;
    assert_eq!(choose_image_count(&caps), 3);
    caps.max_image_count = 2;
    assert_eq!(choose_image_count(&caps), 2);
    caps.max_image_count = 0;
    assert_eq!(choose_image_count(&caps), 3);
}

#[test]
fn recreation_matches_clamped_window() {
    // a resize yields a new extent equal to the clamped window size, and
    // every framebuffer built against it matches that extent.
    let caps = caps_with_range((100, 100), (1920, 1080));
    let formats = vec![
        SurfaceFormat { format: FORMAT_B8G8R8A8_UNORM, color_space: COLOR_SPACE_SRGB_NONLINEAR },
    ];
    let mut s = SwapchainSurface::new(formats[0], 800, 600, 3);
    assert_eq!(s.generation, 0);
    assert_eq!(s.framebuffer_extents.len(), 3);

    s.recreate(&caps, &formats, 2560, 480, 4);
    assert_eq!((s.extent_w, s.extent_h), (1920, 480));
    assert_eq!(s.generation, 1);
    assert_eq!(s.framebuffer_extents.len(), 4);
    for fb in &s.framebuffer_extents {
        assert_eq!(*fb, (1920, 480));
    }
}
