use carbo::surface::{AlphaMode, PresentMode, SurfaceConfig, SurfaceUsage, TextureFormat};

#[test]
fn window_size_becomes_config() {
    let c = SurfaceConfig::for_window_size(800, 600);
    assert_eq!((c.width(), c.height()), (800, 600));
    assert_eq!(c.format(), TextureFormat::Rgba8Unorm);
    assert_eq!(c.present_mode(), PresentMode::AutoVsync);
    assert_eq!(c.alpha_mode(), AlphaMode::Auto);
    assert_eq!(c.usage(), SurfaceUsage { render_attachment: true, copy_dst: true });
    assert_eq!(c.desired_maximum_frame_latency(), 2);
}

#[test]
fn zero_size_becomes_one_pixel() {
    let c = SurfaceConfig::for_window_size(0, 0);
    assert_eq!((c.width(), c.height()), (1, 1));
    let c = SurfaceConfig::for_window_size(0, 7);
    assert_eq!((c.width(), c.height()), (1, 7));
}

#[test]
fn resize_sets_extent_and_keeps_the_rest() {
    let mut c = SurfaceConfig::for_window_size(800, 600);
    c.resize(0, 300);
    assert_eq!((c.width(), c.height()), (1, 300));
    assert_eq!(c.format(), TextureFormat::Rgba8Unorm);
    assert_eq!(c.desired_maximum_frame_latency(), 2);
}

#[test]
fn resize_is_idempotent_and_last_wins() {
    let mut a = SurfaceConfig::for_window_size(800, 600);
    a.resize(640, 480);
    let once = a;
    a.resize(640, 480);
    assert_eq!(a, once);
    a.resize(1, 2);
    a.resize(u32::MAX, 5);
    assert_eq!((a.width(), a.height()), (u32::MAX, 5));
    let mut b = SurfaceConfig::for_window_size(u32::MAX, 5);
    b.resize(u32::MAX, 5);
    assert_eq!(a, b);
}
