//! The configuration that a window's surface is (re)configured with.
//!
//! A surface cannot be configured with a zero-sized extent: a window that is
//! minimised reports a size of zero, so every requested extent is raised to at
//! least one pixel on each side before it reaches the configuration.
use vstd::prelude::*;

verus! {

/// Pixel format of the surface's textures.
#[derive(Clone, Copy, PartialEq, Eq, Structural, Debug)]
pub enum TextureFormat {
    Rgba8Unorm,
}

/// How finished frames are presented.
#[derive(Clone, Copy, PartialEq, Eq, Structural, Debug)]
pub enum PresentMode {
    AutoVsync,
}

/// How the surface's alpha channel is composited.
#[derive(Clone, Copy, PartialEq, Eq, Structural, Debug)]
pub enum AlphaMode {
    Auto,
}

/// The uses that the surface's textures are created for.
#[derive(Clone, Copy, PartialEq, Eq, Structural, Debug)]
pub struct SurfaceUsage {
    /// The texture can be a render target.
    pub render_attachment: bool,
    /// The texture can be the destination of a copy.
    pub copy_dst: bool,
}

/// The number of frames that may be queued ahead of presentation.
pub const DESIRED_MAXIMUM_FRAME_LATENCY: u32 = 2;

/// One extent value as the surface accepts it: zero is raised to one.
pub open spec fn surface_extent(requested: u32) -> u32 {
    if requested == 0 { 1 } else { requested }
}

/// `config` with its extent set to `width` by `height`, each raised to at
/// least one.
pub open spec fn resized(config: SurfaceConfigView, width: u32, height: u32) -> SurfaceConfigView {
    SurfaceConfigView { width: surface_extent(width), height: surface_extent(height), ..config }
}

/// Abstract contents of a [`SurfaceConfig`].
pub struct SurfaceConfigView {
    pub width: u32,
    pub height: u32,
    pub format: TextureFormat,
    pub present_mode: PresentMode,
    pub alpha_mode: AlphaMode,
    pub usage: SurfaceUsage,
    pub desired_maximum_frame_latency: u32,
}

/// The configuration of a window surface. Its width and height are never zero.
#[derive(Clone, Copy, PartialEq, Eq, Debug)]
pub struct SurfaceConfig {
    width: u32,
    height: u32,
    format: TextureFormat,
    present_mode: PresentMode,
    alpha_mode: AlphaMode,
    usage: SurfaceUsage,
    desired_maximum_frame_latency: u32,
}

impl View for SurfaceConfig {
    type V = SurfaceConfigView;

    closed spec fn view(&self) -> SurfaceConfigView {
        SurfaceConfigView {
            width: self.width,
            height: self.height,
            format: self.format,
            present_mode: self.present_mode,
            alpha_mode: self.alpha_mode,
            usage: self.usage,
            desired_maximum_frame_latency: self.desired_maximum_frame_latency,
        }
    }
}

/// The settings that every surface of the application is configured with,
/// apart from its extent.
pub open spec fn standard_settings(v: SurfaceConfigView) -> bool {
    &&& v.format == TextureFormat::Rgba8Unorm
    &&& v.present_mode == PresentMode::AutoVsync
    &&& v.alpha_mode == AlphaMode::Auto
    &&& v.usage == (SurfaceUsage { render_attachment: true, copy_dst: true })
    &&& v.desired_maximum_frame_latency == DESIRED_MAXIMUM_FRAME_LATENCY
}

impl SurfaceConfig {
    #[verifier::type_invariant]
    closed spec fn extent_is_positive(self) -> bool {
        self.width >= 1 && self.height >= 1
    }

    /// The configuration for a window whose inner size is `width` by `height`
    /// physical pixels.
    pub fn for_window_size(width: u32, height: u32) -> (config: SurfaceConfig)
        ensures
            config@.width == surface_extent(width),
            config@.height == surface_extent(height),
            standard_settings(config@),
    {
        SurfaceConfig {
            width: if width == 0 { 1 } else { width },
            height: if height == 0 { 1 } else { height },
            format: TextureFormat::Rgba8Unorm,
            present_mode: PresentMode::AutoVsync,
            alpha_mode: AlphaMode::Auto,
            usage: SurfaceUsage { render_attachment: true, copy_dst: true },
            desired_maximum_frame_latency: DESIRED_MAXIMUM_FRAME_LATENCY,
        }
    }

    /// Sets the extent to `width` by `height`, each raised to at least one.
    /// Everything else stays as it was.
    pub fn resize(&mut self, width: u32, height: u32)
        ensures
            final(self)@ == resized(old(self)@, width, height),
    {
        let w: u32 = if width == 0 { 1 } else { width };
        let h: u32 = if height == 0 { 1 } else { height };
        *self = SurfaceConfig { width: w, height: h, ..*self };
    }

    /// The configured width, in physical pixels; never zero.
    pub fn width(&self) -> (w: u32)
        ensures
            w == self@.width,
            w >= 1,
    {
        proof {
            use_type_invariant(self);
        }
        self.width
    }

    /// The configured height, in physical pixels; never zero.
    pub fn height(&self) -> (h: u32)
        ensures
            h == self@.height,
            h >= 1,
    {
        proof {
            use_type_invariant(self);
        }
        self.height
    }

    /// The configured texture format.
    pub fn format(&self) -> (f: TextureFormat)
        ensures
            f == self@.format,
    {
        self.format
    }

    /// The configured presentation mode.
    pub fn present_mode(&self) -> (m: PresentMode)
        ensures
            m == self@.present_mode,
    {
        self.present_mode
    }

    /// The configured alpha compositing mode.
    pub fn alpha_mode(&self) -> (m: AlphaMode)
        ensures
            m == self@.alpha_mode,
    {
        self.alpha_mode
    }

    /// The configured texture usages.
    pub fn usage(&self) -> (u: SurfaceUsage)
        ensures
            u == self@.usage,
    {
        self.usage
    }

    /// The configured frame latency.
    pub fn desired_maximum_frame_latency(&self) -> (n: u32)
        ensures
            n == self@.desired_maximum_frame_latency,
    {
        self.desired_maximum_frame_latency
    }
}

/// A requested extent becomes the larger of itself and one pixel: it is
/// never zero once it reaches the configuration, an extent of at least one
/// pixel is taken as it is, and raising twice is raising once.
pub proof fn surface_extent_is_positive_and_exact(requested: u32)
    ensures
        surface_extent(requested) >= 1,
        surface_extent(requested) >= requested,
        surface_extent(requested) == requested || surface_extent(requested) == 1,
        requested >= 1 ==> surface_extent(requested) == requested,
        surface_extent(surface_extent(requested)) == surface_extent(requested),
{
}

/// Resizing twice to the same extent is resizing once, and resizing a
/// configuration to its own (nonzero) extent changes nothing.
pub proof fn resize_is_idempotent(config: SurfaceConfigView, width: u32, height: u32)
    ensures
        resized(resized(config, width, height), width, height) == resized(config, width, height),
        config.width >= 1 && config.height >= 1 ==> resized(config, config.width, config.height)
            == config,
{
}

/// Only the last resize counts: resizing to one extent and then to another is
/// resizing to the second one.
pub proof fn last_resize_wins(config: SurfaceConfigView, w1: u32, h1: u32, w2: u32, h2: u32)
    ensures
        resized(resized(config, w1, h1), w2, h2) == resized(config, w2, h2),
{
}

} // verus!
