//! Swapchain negotiation and the presentable-surface model.
//!
//! The window layer reports surface capabilities, supported formats and
//! present modes as plain values; the choices made over them — format,
//! present mode, extent clamping, image count — are verified here, as is
//! the invariant that every framebuffer built against a swapchain matches
//! its extent. Recreation replaces the surface wholesale: the extent is
//! renegotiated and the generation counter advances, which stands for the
//! old swapchain being retired only after the new one exists.

use vstd::prelude::*;

verus! {

/// Preferred pixel format: 8-bit BGRA.
pub const FORMAT_B8G8R8A8_UNORM: u32 = 44;

/// Preferred color space: non-linear sRGB.
pub const COLOR_SPACE_SRGB_NONLINEAR: u32 = 0;

/// Low-latency triple-buffered present mode.
pub const PRESENT_MODE_MAILBOX: u32 = 1;

/// Strict first-in first-out present mode; always supported.
pub const PRESENT_MODE_FIFO: u32 = 2;

/// Sentinel in `SurfaceCaps::current_w`: the surface has no fixed extent
/// and the window size decides, clamped to the reported bounds.
pub const EXTENT_UNDEFINED: u32 = 0xffff_ffff;

/// A surface pixel format paired with its color space.
#[derive(Clone, Copy, Debug, PartialEq, Eq, Structural)]
pub struct SurfaceFormat {
    pub format: u32,
    pub color_space: u32,
}

/// Surface capabilities as the device reports them. `max_image_count == 0`
/// means the device sets no upper bound.
#[derive(Clone, Copy, Debug, PartialEq, Eq, Structural)]
pub struct SurfaceCaps {
    pub current_w: u32,
    pub current_h: u32,
    pub min_w: u32,
    pub min_h: u32,
    pub max_w: u32,
    pub max_h: u32,
    pub min_image_count: u32,
    pub max_image_count: u32,
}

/// The format negotiation prefers 8-bit BGRA in non-linear sRGB.
pub open spec fn format_preferred(f: SurfaceFormat) -> bool {
    f.format == FORMAT_B8G8R8A8_UNORM && f.color_space == COLOR_SPACE_SRGB_NONLINEAR
}

pub open spec fn spec_preferred_format() -> SurfaceFormat {
    SurfaceFormat { format: FORMAT_B8G8R8A8_UNORM, color_space: COLOR_SPACE_SRGB_NONLINEAR }
}

/// What the negotiation yields: the preferred format when the device offers
/// it, otherwise the first supported format.
pub open spec fn spec_choose_format(formats: Seq<SurfaceFormat>) -> SurfaceFormat {
    if exists|i: int| 0 <= i < formats.len() && format_preferred(formats[i]) {
        spec_preferred_format()
    } else {
        formats[0]
    }
}

/// Picks the surface format: prefer 8-bit BGRA with non-linear sRGB color
/// space, falling back to the first supported format.
pub fn choose_surface_format(formats: &Vec<SurfaceFormat>) -> (r: SurfaceFormat)
    requires
        formats@.len() > 0,
    ensures
        r == spec_choose_format(formats@),
{
    let n = formats.len();
    let mut i: usize = 0;
    while i < n
        invariant
            n == formats@.len(),
            i <= n,
            forall|j: int| 0 <= j < i ==> !format_preferred(formats@[j]),
        decreases n - i,
    {
        let f = formats[i];
        if f.format == FORMAT_B8G8R8A8_UNORM && f.color_space == COLOR_SPACE_SRGB_NONLINEAR {
            return f;
        }
        i = i + 1;
    }
    formats[0]
}

/// What the present-mode negotiation yields: triple-buffered mailbox when
/// supported, else strict FIFO.
pub open spec fn spec_choose_present_mode(modes: Seq<u32>) -> u32 {
    if modes.contains(PRESENT_MODE_MAILBOX) {
        PRESENT_MODE_MAILBOX
    } else {
        PRESENT_MODE_FIFO
    }
}

/// Picks the present mode: prefer low-latency triple buffering, fall back
/// to strict FIFO.
pub fn choose_present_mode(modes: &Vec<u32>) -> (r: u32)
    ensures
        r == spec_choose_present_mode(modes@),
{
    let n = modes.len();
    let mut i: usize = 0;
    while i < n
        invariant
            n == modes@.len(),
            i <= n,
            forall|j: int| 0 <= j < i ==> modes@[j] != PRESENT_MODE_MAILBOX,
        decreases n - i,
    {
        if modes[i] == PRESENT_MODE_MAILBOX {
            assert(modes@.contains(PRESENT_MODE_MAILBOX));
            return PRESENT_MODE_MAILBOX;
        }
        i = i + 1;
    }
    assert(!modes@.contains(PRESENT_MODE_MAILBOX));
    PRESENT_MODE_FIFO
}

pub open spec fn spec_clamp_u32(x: u32, lo: u32, hi: u32) -> u32 {
    if x < lo {
        lo
    } else if x > hi {
        hi
    } else {
        x
    }
}

/// The negotiated extent: the surface's fixed current extent when it has
/// one, otherwise the window size clamped to the device-reported bounds.
pub open spec fn spec_surface_extent(caps: SurfaceCaps, window_w: u32, window_h: u32) -> (u32, u32) {
    if caps.current_w != EXTENT_UNDEFINED {
        (caps.current_w, caps.current_h)
    } else {
        (spec_clamp_u32(window_w, caps.min_w, caps.max_w),
         spec_clamp_u32(window_h, caps.min_h, caps.max_h))
    }
}

/// Clamps the requested window size to the device-reported extent range,
/// honouring a fixed current extent when the surface reports one.
pub fn clamp_extent(caps: &SurfaceCaps, window_w: u32, window_h: u32) -> (r: (u32, u32))
    requires
        caps.min_w <= caps.max_w,
        caps.min_h <= caps.max_h,
    ensures
        r == spec_surface_extent(*caps, window_w, window_h),
{
    if caps.current_w != EXTENT_UNDEFINED {
        (caps.current_w, caps.current_h)
    } else {
        let w = if window_w < caps.min_w {
            caps.min_w
        } else if window_w > caps.max_w {
            caps.max_w
        } else {
            window_w
        };
        let h = if window_h < caps.min_h {
            caps.min_h
        } else if window_h > caps.max_h {
            caps.max_h
        } else {
            window_h
        };
        (w, h)
    }
}

/// The requested image count: one above the device minimum, capped at the
/// device maximum when the device sets one.
pub open spec fn spec_image_count(caps: SurfaceCaps) -> u32 {
    let wanted = (caps.min_image_count + 1) as u32;
    if caps.max_image_count > 0 && caps.max_image_count < wanted {
        caps.max_image_count
    } else {
        wanted
    }
}

/// Requests `min_image_count + 1` presentable images, capped at the device
/// maximum when one is set (`0` means unbounded).
pub fn choose_image_count(caps: &SurfaceCaps) -> (r: u32)
    requires
        caps.min_image_count < 0xffff_ffffu32,
    ensures
        r == spec_image_count(*caps),
{
    let wanted = caps.min_image_count + 1;
    if caps.max_image_count > 0 && caps.max_image_count < wanted {
        caps.max_image_count
    } else {
        wanted
    }
}

/// Model of a presentable surface: the negotiated extent and format, and
/// one framebuffer extent per presentable image. The generation counter
/// advances on every wholesale recreation.
pub struct SwapchainSurface {
    pub extent_w: u32,
    pub extent_h: u32,
    pub format: SurfaceFormat,
    pub framebuffer_extents: Vec<(u32, u32)>,
    pub generation: u64,
}

impl SwapchainSurface {
    /// Every framebuffer (and the view behind it) matches the surface extent.
    pub open spec fn well_formed(self) -> bool {
        forall|i: int|
            0 <= i < self.framebuffer_extents@.len()
                ==> self.framebuffer_extents@[i] == (self.extent_w, self.extent_h)
    }

    /// Builds the surface model for a freshly negotiated swapchain, with one
    /// framebuffer per presentable image the device actually returned, each
    /// sized to the negotiated extent.
    pub fn new(format: SurfaceFormat, extent_w: u32, extent_h: u32, image_count: usize) -> (s: Self)
        ensures
            s.well_formed(),
            s.extent_w == extent_w,
            s.extent_h == extent_h,
            s.format == format,
            s.framebuffer_extents@.len() == image_count,
            s.generation == 0,
    {
        let framebuffer_extents = Self::build_framebuffers(extent_w, extent_h, image_count);
        SwapchainSurface { extent_w, extent_h, format, framebuffer_extents, generation: 0 }
    }

    fn build_framebuffers(extent_w: u32, extent_h: u32, image_count: usize) -> (r: Vec<(u32, u32)>)
        ensures
            r@.len() == image_count,
            forall|i: int| 0 <= i < r@.len() ==> r@[i] == (extent_w, extent_h),
    {
        let mut r: Vec<(u32, u32)> = Vec::new();
        let mut i: usize = 0;
        while i < image_count
            invariant
                i <= image_count,
                r@.len() == i,
                forall|j: int| 0 <= j < r@.len() ==> r@[j] == (extent_w, extent_h),
            decreases image_count - i,
        {
            r.push((extent_w, extent_h));
            i = i + 1;
        }
        r
    }

    /// Recreates the swapchain after a resize, a scale-factor change, or an
    /// out-of-date present result. The new extent is the clamped window
    /// size, every rebuilt framebuffer matches it, and the generation
    /// advances: the old swapchain is retired only as part of this step.
    pub fn recreate(
        &mut self,
        caps: &SurfaceCaps,
        formats: &Vec<SurfaceFormat>,
        window_w: u32,
        window_h: u32,
        image_count: usize,
    )
        requires
            caps.min_w <= caps.max_w,
            caps.min_h <= caps.max_h,
            formats@.len() > 0,
            old(self).generation < 0xffff_ffff_ffff_ffffu64,
        ensures
            final(self).well_formed(),
            (final(self).extent_w, final(self).extent_h) == spec_surface_extent(
                *caps,
                window_w,
                window_h,
            ),
            final(self).format == spec_choose_format(formats@),
            final(self).framebuffer_extents@.len() == image_count,
            final(self).generation == old(self).generation + 1,
    {
        let (w, h) = clamp_extent(caps, window_w, window_h);
        let format = choose_surface_format(formats);
        let framebuffer_extents = Self::build_framebuffers(w, h, image_count);
        self.extent_w = w;
        self.extent_h = h;
        self.format = format;
        self.framebuffer_extents = framebuffer_extents;
        self.generation = self.generation + 1;
    }
}

} // verus!
