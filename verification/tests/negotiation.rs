use render_core::errors::SwapChainError;
use render_core::swapchain::{
    negotiate, select_composite_alpha, select_extent, select_format, select_image_count,
    select_present_mode, CompositeAlpha, Extent2d, PixelFormat, PresentMode, SurfaceCaps,
};

fn plain_caps() -> SurfaceCaps {
    SurfaceCaps {
        image_count_min: 1,
        image_count_max: 4,
        min_extent: Extent2d { width: 1, height: 1 },
        max_extent: Extent2d { width: 2000, height: 2000 },
        composite_alpha: vec![CompositeAlpha::Opaque, CompositeAlpha::Inherit],
        supports_color_attachment: true,
    }
}

#[test]
fn present_mode_prefers_mailbox_over_fifo() {
    let modes = vec![PresentMode::Fifo, PresentMode::Mailbox];
    assert_eq!(select_present_mode(&modes), Some(PresentMode::Mailbox));
}

#[test]
fn present_mode_takes_fifo_when_no_mailbox() {
    let modes = vec![PresentMode::Immediate, PresentMode::Fifo, PresentMode::Relaxed];
    assert_eq!(select_present_mode(&modes), Some(PresentMode::Fifo));
}

#[test]
fn present_mode_relaxed_before_immediate() {
    let modes = vec![PresentMode::Immediate, PresentMode::Relaxed];
    assert_eq!(select_present_mode(&modes), Some(PresentMode::Relaxed));
}

#[test]
fn present_mode_immediate_alone() {
    let modes = vec![PresentMode::Immediate];
    assert_eq!(select_present_mode(&modes), Some(PresentMode::Immediate));
}

#[test]
fn present_mode_none_supported() {
    let modes: Vec<PresentMode> = vec![];
    assert_eq!(select_present_mode(&modes), None);
}

#[test]
fn composite_alpha_prefers_opaque() {
    let alphas = vec![CompositeAlpha::Postmultiplied, CompositeAlpha::Opaque];
    assert_eq!(select_composite_alpha(&alphas), Some(CompositeAlpha::Opaque));
}

#[test]
fn composite_alpha_inherit_before_premultiplied() {
    let alphas = vec![CompositeAlpha::Premultiplied, CompositeAlpha::Inherit];
    assert_eq!(select_composite_alpha(&alphas), Some(CompositeAlpha::Inherit));
}

#[test]
fn composite_alpha_none_supported() {
    let alphas: Vec<CompositeAlpha> = vec![];
    assert_eq!(select_composite_alpha(&alphas), None);
}

#[test]
fn format_picks_first_srgb_entry() {
    let formats = vec![
        PixelFormat::Rgba8Unorm,
        PixelFormat::Bgra8Srgb,
        PixelFormat::Rgba8Srgb,
    ];
    assert_eq!(select_format(&Some(formats)), Some(PixelFormat::Bgra8Srgb));
}

#[test]
fn format_falls_back_to_first_entry_without_srgb() {
    let formats = vec![PixelFormat::Bgra8Unorm, PixelFormat::Rgba8Unorm];
    assert_eq!(select_format(&Some(formats)), Some(PixelFormat::Bgra8Unorm));
}

#[test]
fn format_defaults_to_rgba8_srgb_without_preference() {
    assert_eq!(select_format(&None), Some(PixelFormat::Rgba8Srgb));
}

#[test]
fn format_empty_preference_list_is_an_error() {
    assert_eq!(select_format(&Some(vec![])), None);
}

#[test]
fn image_count_three_under_mailbox_two_otherwise() {
    let caps = plain_caps();
    assert_eq!(select_image_count(PresentMode::Mailbox, &caps), 3);
    assert_eq!(select_image_count(PresentMode::Fifo, &caps), 2);
    assert_eq!(select_image_count(PresentMode::Relaxed, &caps), 2);
}

#[test]
fn image_count_clamped_to_reserved_maximum() {
    let mut caps = plain_caps();
    caps.image_count_max = 3;
    // requesting 3 under Mailbox, but one image below the maximum is kept free
    assert_eq!(select_image_count(PresentMode::Mailbox, &caps), 2);
}

#[test]
fn image_count_raised_to_minimum() {
    let mut caps = plain_caps();
    caps.image_count_min = 4;
    caps.image_count_max = 9;
    assert_eq!(select_image_count(PresentMode::Fifo, &caps), 4);
}

#[test]
fn extent_clamped_into_supported_range() {
    let mut caps = plain_caps();
    caps.min_extent = Extent2d { width: 100, height: 100 };
    caps.max_extent = Extent2d { width: 600, height: 500 };
    let e = select_extent(&caps, Extent2d { width: 800, height: 50 });
    assert_eq!(e, Extent2d { width: 600, height: 100 });
    let e = select_extent(&caps, Extent2d { width: 400, height: 300 });
    assert_eq!(e, Extent2d { width: 400, height: 300 });
}

#[test]
fn fixed_extent_wins_over_window_size() {
    let mut caps = plain_caps();
    caps.min_extent = Extent2d { width: 640, height: 480 };
    caps.max_extent = Extent2d { width: 640, height: 480 };
    let e = select_extent(&caps, Extent2d { width: 400, height: 300 });
    assert_eq!(e, Extent2d { width: 640, height: 480 });
}

#[test]
fn negotiate_full_success() {
    let caps = plain_caps();
    let modes = vec![PresentMode::Fifo, PresentMode::Mailbox];
    let formats = Some(vec![PixelFormat::Rgba8Unorm, PixelFormat::Rgba8Srgb]);
    let config = negotiate(&caps, &formats, &modes, Extent2d { width: 400, height: 300 })
        .expect("negotiation should succeed");
    assert_eq!(config.present_mode, PresentMode::Mailbox);
    assert_eq!(config.composite_alpha, CompositeAlpha::Opaque);
    assert_eq!(config.format, PixelFormat::Rgba8Srgb);
    assert_eq!(config.extent, Extent2d { width: 400, height: 300 });
    assert_eq!(config.image_count, 3);
    assert_eq!(config.image_layers, 1);
}

#[test]
fn negotiate_reports_missing_present_mode_first() {
    let mut caps = plain_caps();
    caps.composite_alpha = vec![];
    let r = negotiate(&caps, &None, &vec![], Extent2d { width: 400, height: 300 });
    assert_eq!(r, Err(SwapChainError::NoPresentMode));
}

#[test]
fn negotiate_reports_missing_composite_alpha() {
    let mut caps = plain_caps();
    caps.composite_alpha = vec![];
    let modes = vec![PresentMode::Fifo];
    let r = negotiate(&caps, &None, &modes, Extent2d { width: 400, height: 300 });
    assert_eq!(r, Err(SwapChainError::NoCompositeAlpha));
}

#[test]
fn negotiate_reports_empty_format_list() {
    let caps = plain_caps();
    let modes = vec![PresentMode::Fifo];
    let r = negotiate(&caps, &Some(vec![]), &modes, Extent2d { width: 400, height: 300 });
    assert_eq!(r, Err(SwapChainError::NoFormat));
}

#[test]
fn negotiate_reports_missing_color_support() {
    let mut caps = plain_caps();
    caps.supports_color_attachment = false;
    let modes = vec![PresentMode::Fifo];
    let r = negotiate(&caps, &None, &modes, Extent2d { width: 400, height: 300 });
    assert_eq!(r, Err(SwapChainError::SurfaceDoesNotSupportColor));
}
