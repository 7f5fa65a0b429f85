//! Swap-chain negotiation: present mode, composite alpha, pixel format,
//! extent and image count are chosen from the surface's capabilities with
//! deterministic tie-breaking.

use vstd::prelude::*;
use crate::errors::SwapChainError;

verus! {

/// The presentation modes a surface may support, in the order the
/// negotiation prefers them.
#[derive(Clone, Copy, Debug, PartialEq, Eq, Structural)]
pub enum PresentMode {
    Mailbox,
    Fifo,
    Relaxed,
    Immediate,
}

/// The composite-alpha modes a surface may support, in the order the
/// negotiation prefers them.
#[derive(Clone, Copy, Debug, PartialEq, Eq, Structural)]
pub enum CompositeAlpha {
    Opaque,
    Inherit,
    Premultiplied,
    Postmultiplied,
}

/// The 8-bit-per-channel surface formats the core distinguishes. Only the
/// color space matters to the negotiation: sRGB entries are preferred.
#[derive(Clone, Copy, Debug, PartialEq, Eq, Structural)]
pub enum PixelFormat {
    Rgba8Srgb,
    Bgra8Srgb,
    Rgba8Unorm,
    Bgra8Unorm,
}

/// A two-dimensional size in physical pixels.
#[derive(Clone, Copy, Debug, PartialEq, Eq, Structural)]
pub struct Extent2d {
    pub width: u32,
    pub height: u32,
}

/// What the surface reports about itself, reduced to the plain values the
/// negotiation reads.
pub struct SurfaceCaps {
    /// Fewest images the surface accepts in a chain.
    pub image_count_min: u32,
    /// Reported upper bound on the image count. One image below it is kept
    /// free as a buffer against drivers whose reported maximum is an
    /// exclusive bound; this reservation is deliberate.
    pub image_count_max: u32,
    /// Smallest supported extent.
    pub min_extent: Extent2d,
    /// Largest supported extent.
    pub max_extent: Extent2d,
    /// The composite-alpha modes the surface supports.
    pub composite_alpha: Vec<CompositeAlpha>,
    /// Whether the surface supports color-attachment usage.
    pub supports_color_attachment: bool,
}

/// The outcome of a successful negotiation.
#[derive(Clone, Copy, Debug, PartialEq, Eq, Structural)]
pub struct SwapchainConfig {
    pub present_mode: PresentMode,
    pub composite_alpha: CompositeAlpha,
    pub format: PixelFormat,
    pub extent: Extent2d,
    pub image_count: u32,
    pub image_layers: u32,
}

/// The bounds the negotiation needs from the capabilities: at least one
/// image must be requestable after the one-image reservation, and the
/// extent range must be non-empty.
pub open spec fn caps_wf(caps: SurfaceCaps) -> bool {
    &&& 1 <= caps.image_count_min
    &&& caps.image_count_min <= caps.image_count_max - 1
    &&& caps.min_extent.width <= caps.max_extent.width
    &&& caps.min_extent.height <= caps.max_extent.height
}

/// True when `modes` lists `m` somewhere.
pub open spec fn mode_supported(modes: Seq<PresentMode>, m: PresentMode) -> bool {
    exists|i: int| 0 <= i < modes.len() && modes[i] == m
}

/// The present mode the negotiation picks: the first supported entry of the
/// preference order Mailbox > Fifo > Relaxed > Immediate, if any is supported.
pub open spec fn chosen_present_mode(modes: Seq<PresentMode>) -> Option<PresentMode> {
    if mode_supported(modes, PresentMode::Mailbox) {
        Some(PresentMode::Mailbox)
    } else if mode_supported(modes, PresentMode::Fifo) {
        Some(PresentMode::Fifo)
    } else if mode_supported(modes, PresentMode::Relaxed) {
        Some(PresentMode::Relaxed)
    } else if mode_supported(modes, PresentMode::Immediate) {
        Some(PresentMode::Immediate)
    } else {
        None
    }
}

/// True when `alphas` lists `a` somewhere.
pub open spec fn alpha_supported(alphas: Seq<CompositeAlpha>, a: CompositeAlpha) -> bool {
    exists|i: int| 0 <= i < alphas.len() && alphas[i] == a
}

/// The composite-alpha mode the negotiation picks: the first supported entry
/// of the preference order Opaque > Inherit > Premultiplied > Postmultiplied.
pub open spec fn chosen_composite_alpha(alphas: Seq<CompositeAlpha>) -> Option<CompositeAlpha> {
    if alpha_supported(alphas, CompositeAlpha::Opaque) {
        Some(CompositeAlpha::Opaque)
    } else if alpha_supported(alphas, CompositeAlpha::Inherit) {
        Some(CompositeAlpha::Inherit)
    } else if alpha_supported(alphas, CompositeAlpha::Premultiplied) {
        Some(CompositeAlpha::Premultiplied)
    } else if alpha_supported(alphas, CompositeAlpha::Postmultiplied) {
        Some(CompositeAlpha::Postmultiplied)
    } else {
        None
    }
}

/// Whether a format's color space is sRGB.
pub open spec fn spec_is_srgb(f: PixelFormat) -> bool {
    f == PixelFormat::Rgba8Srgb || f == PixelFormat::Bgra8Srgb
}

/// The first sRGB entry of `formats` at or after position `i`, if any.
pub open spec fn first_srgb_from(formats: Seq<PixelFormat>, i: int) -> Option<PixelFormat>
    decreases formats.len() - i,
{
    if i < 0 || i >= formats.len() {
        None
    } else if spec_is_srgb(formats[i]) {
        Some(formats[i])
    } else {
        first_srgb_from(formats, i + 1)
    }
}

/// The format the negotiation picks. With no preference imposed, the default
/// 8-bit sRGB format; otherwise the first sRGB entry of the list, falling
/// back to the first entry; `None` only for a present but empty list.
pub open spec fn chosen_format(preferred: Option<Seq<PixelFormat>>) -> Option<PixelFormat> {
    match preferred {
        None => Some(PixelFormat::Rgba8Srgb),
        Some(formats) => match first_srgb_from(formats, 0) {
            Some(srgb) => Some(srgb),
            None => if formats.len() > 0 {
                Some(formats[0])
            } else {
                None
            },
        },
    }
}

/// `x` clamped into `[lo, hi]`.
pub open spec fn spec_clamp(x: u32, lo: u32, hi: u32) -> u32 {
    if x < lo {
        lo
    } else if x > hi {
        hi
    } else {
        x
    }
}

/// The extent the negotiation picks: the window's client area clamped into
/// the supported range. When the surface reports a fixed extent
/// (`min == max`), the clamp yields that extent regardless of window size.
pub open spec fn chosen_extent(caps: SurfaceCaps, window: Extent2d) -> Extent2d {
    Extent2d {
        width: spec_clamp(window.width, caps.min_extent.width, caps.max_extent.width),
        height: spec_clamp(window.height, caps.min_extent.height, caps.max_extent.height),
    }
}

/// The image count the negotiation picks: 3 when Mailbox was chosen, else 2,
/// clamped into `[image_count_min, image_count_max - 1]`. The `-1` keeps one
/// image in reserve and must stay.
pub open spec fn chosen_image_count(mode: PresentMode, caps: SurfaceCaps) -> u32 {
    let desired: u32 = if mode == PresentMode::Mailbox {
        3
    } else {
        2
    };
    let floored: u32 = if caps.image_count_min > desired {
        caps.image_count_min
    } else {
        desired
    };
    let reserved: u32 = (caps.image_count_max - 1) as u32;
    if reserved < floored {
        reserved
    } else {
        floored
    }
}

/// The whole negotiation: each selection in order, failing with the error of
/// the first step that has nothing to pick.
pub open spec fn negotiated(
    caps: SurfaceCaps,
    preferred: Option<Seq<PixelFormat>>,
    modes: Seq<PresentMode>,
    window: Extent2d,
) -> Result<SwapchainConfig, SwapChainError> {
    if chosen_present_mode(modes) is None {
        Err(SwapChainError::NoPresentMode)
    } else if chosen_composite_alpha(caps.composite_alpha@) is None {
        Err(SwapChainError::NoCompositeAlpha)
    } else if chosen_format(preferred) is None {
        Err(SwapChainError::NoFormat)
    } else if !caps.supports_color_attachment {
        Err(SwapChainError::SurfaceDoesNotSupportColor)
    } else {
        Ok(SwapchainConfig {
            present_mode: chosen_present_mode(modes)->0,
            composite_alpha: chosen_composite_alpha(caps.composite_alpha@)->0,
            format: chosen_format(preferred)->0,
            extent: chosen_extent(caps, window),
            image_count: chosen_image_count(chosen_present_mode(modes)->0, caps),
            image_layers: 1,
        })
    }
}

/// Whether `modes` contains `m`, by linear search.
fn contains_mode(modes: &Vec<PresentMode>, m: PresentMode) -> (r: bool)
    ensures
        r == mode_supported(modes@, m),
{
    let mut i: usize = 0;
    while i < modes.len()
        invariant
            0 <= i <= modes@.len(),
            forall|j: int| 0 <= j < i ==> modes@[j] != m,
        decreases modes@.len() - i,
    {
        if modes[i] == m {
            return true;
        }
        i = i + 1;
    }
    false
}

/// Whether `alphas` contains `a`, by linear search.
fn contains_alpha(alphas: &Vec<CompositeAlpha>, a: CompositeAlpha) -> (r: bool)
    ensures
        r == alpha_supported(alphas@, a),
{
    let mut i: usize = 0;
    while i < alphas.len()
        invariant
            0 <= i <= alphas@.len(),
            forall|j: int| 0 <= j < i ==> alphas@[j] != a,
        decreases alphas@.len() - i,
    {
        if alphas[i] == a {
            return true;
        }
        i = i + 1;
    }
    false
}

/// Select the present mode: prefer Mailbox, then Fifo, then Relaxed, then
/// Immediate; `None` when the surface reported no supported mode at all.
pub fn select_present_mode(modes: &Vec<PresentMode>) -> (r: Option<PresentMode>)
    ensures
        r == chosen_present_mode(modes@),
{
    if contains_mode(modes, PresentMode::Mailbox) {
        Some(PresentMode::Mailbox)
    } else if contains_mode(modes, PresentMode::Fifo) {
        Some(PresentMode::Fifo)
    } else if contains_mode(modes, PresentMode::Relaxed) {
        Some(PresentMode::Relaxed)
    } else if contains_mode(modes, PresentMode::Immediate) {
        Some(PresentMode::Immediate)
    } else {
        None
    }
}

/// Select the composite-alpha mode: prefer Opaque, then Inherit, then
/// Premultiplied, then Postmultiplied.
pub fn select_composite_alpha(alphas: &Vec<CompositeAlpha>) -> (r: Option<CompositeAlpha>)
    ensures
        r == chosen_composite_alpha(alphas@),
{
    if contains_alpha(alphas, CompositeAlpha::Opaque) {
        Some(CompositeAlpha::Opaque)
    } else if contains_alpha(alphas, CompositeAlpha::Inherit) {
        Some(CompositeAlpha::Inherit)
    } else if contains_alpha(alphas, CompositeAlpha::Premultiplied) {
        Some(CompositeAlpha::Premultiplied)
    } else if contains_alpha(alphas, CompositeAlpha::Postmultiplied) {
        Some(CompositeAlpha::Postmultiplied)
    } else {
        None
    }
}

/// Whether a format's color space is sRGB.
pub fn is_srgb(f: PixelFormat) -> (r: bool)
    ensures
        r == spec_is_srgb(f),
{
    match f {
        PixelFormat::Rgba8Srgb => true,
        PixelFormat::Bgra8Srgb => true,
        PixelFormat::Rgba8Unorm => false,
        PixelFormat::Bgra8Unorm => false,
    }
}

/// Select the format from the surface's preference, if it imposed one:
/// the first sRGB entry, else the first entry, and `None` for an empty list.
pub fn select_format(preferred: &Option<Vec<PixelFormat>>) -> (r: Option<PixelFormat>)
    ensures
        r == chosen_format(match preferred {
            Some(v) => Some(v@),
            None => None,
        }),
{
    match preferred {
        None => Some(PixelFormat::Rgba8Srgb),
        Some(formats) => {
            match first_srgb(formats) {
                Some(srgb) => Some(srgb),
                None => {
                    if formats.len() > 0 {
                        Some(formats[0])
                    } else {
                        None
                    }
                },
            }
        },
    }
}

/// The first sRGB entry of `formats`, by linear search.
fn first_srgb(formats: &Vec<PixelFormat>) -> (r: Option<PixelFormat>)
    ensures
        r == first_srgb_from(formats@, 0),
{
    let mut i: usize = 0;
    while i < formats.len()
        invariant
            0 <= i <= formats@.len(),
            first_srgb_from(formats@, 0) == first_srgb_from(formats@, i as int),
        decreases formats@.len() - i,
    {
        if is_srgb(formats[i]) {
            return Some(formats[i]);
        }
        i = i + 1;
    }
    None
}

/// `x` clamped into `[lo, hi]`.
fn clamp_u32(x: u32, lo: u32, hi: u32) -> (r: u32)
    requires
        lo <= hi,
    ensures
        r == spec_clamp(x, lo, hi),
{
    if x < lo {
        lo
    } else if x > hi {
        hi
    } else {
        x
    }
}

/// Clamp the window's client-area size into the surface's supported range.
pub fn select_extent(caps: &SurfaceCaps, window: Extent2d) -> (r: Extent2d)
    requires
        caps.min_extent.width <= caps.max_extent.width,
        caps.min_extent.height <= caps.max_extent.height,
    ensures
        r == chosen_extent(*caps, window),
{
    Extent2d {
        width: clamp_u32(window.width, caps.min_extent.width, caps.max_extent.width),
        height: clamp_u32(window.height, caps.min_extent.height, caps.max_extent.height),
    }
}

/// Request 3 images under Mailbox, else 2, clamped into
/// `[image_count_min, image_count_max - 1]`.
pub fn select_image_count(mode: PresentMode, caps: &SurfaceCaps) -> (r: u32)
    requires
        caps_wf(*caps),
    ensures
        r == chosen_image_count(mode, *caps),
        caps.image_count_min <= r <= caps.image_count_max - 1,
{
    let desired: u32 = if mode == PresentMode::Mailbox {
        3
    } else {
        2
    };
    let floored: u32 = if caps.image_count_min > desired {
        caps.image_count_min
    } else {
        desired
    };
    if caps.image_count_max - 1 < floored {
        caps.image_count_max - 1
    } else {
        floored
    }
}

/// Run the whole negotiation against the surface's capabilities.
///
/// Succeeds exactly when a present mode, a composite-alpha mode and a format
/// can be chosen and the surface supports color attachment; the error names
/// the first step that failed.
pub fn negotiate(
    caps: &SurfaceCaps,
    preferred: &Option<Vec<PixelFormat>>,
    modes: &Vec<PresentMode>,
    window: Extent2d,
) -> (r: Result<SwapchainConfig, SwapChainError>)
    requires
        caps_wf(*caps),
    ensures
        r == negotiated(*caps, match preferred {
            Some(v) => Some(v@),
            None => None,
        }, modes@, window),
{
    let present_mode = match select_present_mode(modes) {
        Some(m) => m,
        None => {
            return Err(SwapChainError::NoPresentMode);
        },
    };
    let composite_alpha = match select_composite_alpha(&caps.composite_alpha) {
        Some(a) => a,
        None => {
            return Err(SwapChainError::NoCompositeAlpha);
        },
    };
    let format = match select_format(preferred) {
        Some(f) => f,
        None => {
            return Err(SwapChainError::NoFormat);
        },
    };
    if !caps.supports_color_attachment {
        return Err(SwapChainError::SurfaceDoesNotSupportColor);
    }
    let extent = select_extent(caps, window);
    let image_count = select_image_count(present_mode, caps);
    Ok(SwapchainConfig {
        present_mode,
        composite_alpha,
        format,
        extent,
        image_count,
        image_layers: 1,
    })
}

/// The present-mode selector never invents a mode: whenever Fifo is among
/// the supported modes the answer exists and is itself supported, and
/// Mailbox is preferred over Fifo when both are present.
pub proof fn lemma_present_mode_sound(modes: Seq<PresentMode>)
    requires
        mode_supported(modes, PresentMode::Fifo),
    ensures
        chosen_present_mode(modes) is Some,
        mode_supported(modes, chosen_present_mode(modes)->0),
        mode_supported(modes, PresentMode::Mailbox)
            ==> chosen_present_mode(modes) == Some(PresentMode::Mailbox),
{
}

/// Whatever `first_srgb_from` finds is an sRGB entry of the list, and it
/// finds one whenever one exists at or after `i`.
proof fn lemma_first_srgb_from(formats: Seq<PixelFormat>, i: int)
    requires
        0 <= i <= formats.len(),
    ensures
        first_srgb_from(formats, i) matches Some(f) ==>
            spec_is_srgb(f) && exists|j: int| i <= j < formats.len() && formats[j] == f,
        (exists|j: int| i <= j < formats.len() && spec_is_srgb(formats[j]))
            ==> first_srgb_from(formats, i) is Some,
    decreases formats.len() - i,
{
    if i < formats.len() && !spec_is_srgb(formats[i]) {
        lemma_first_srgb_from(formats, i + 1);
    }
}

/// The format selector honors the preference list: if any entry is sRGB the
/// choice is an sRGB entry of the list; otherwise it is the first entry; and
/// with no list imposed it is the default sRGB format.
pub proof fn lemma_format_selection(formats: Seq<PixelFormat>)
    ensures
        chosen_format(None) == Some(PixelFormat::Rgba8Srgb),
        (exists|j: int| 0 <= j < formats.len() && spec_is_srgb(formats[j]))
            ==> (chosen_format(Some(formats)) matches Some(f)
                && spec_is_srgb(f)
                && exists|j: int| 0 <= j < formats.len() && formats[j] == f),
        formats.len() > 0
            && (forall|j: int| 0 <= j < formats.len() ==> !spec_is_srgb(formats[j]))
            ==> chosen_format(Some(formats)) == Some(formats[0]),
{
    lemma_first_srgb_from(formats, 0);
}

/// Negotiation is a function of the capabilities, the preference list, the
/// supported modes and the window size alone: recreating the chain against
/// unchanged inputs yields a configuration with the same extent and the
/// same image count as the one being replaced.
pub proof fn lemma_renegotiation_stable(
    caps: SurfaceCaps,
    preferred: Option<Seq<PixelFormat>>,
    modes: Seq<PresentMode>,
    window: Extent2d,
)
    ensures
        negotiated(caps, preferred, modes, window) matches Ok(c) ==> {
            &&& c.extent == chosen_extent(caps, window)
            &&& c.image_count == chosen_image_count(chosen_present_mode(modes)->0, caps)
        },
{
}

/// The image count is always within `[image_count_min, image_count_max - 1]`,
/// and equals 3 under Mailbox (2 otherwise) whenever that value fits the
/// range.
pub proof fn lemma_image_count_bounds(mode: PresentMode, caps: SurfaceCaps)
    requires
        caps_wf(caps),
    ensures
        caps.image_count_min <= chosen_image_count(mode, caps) <= caps.image_count_max - 1,
        mode == PresentMode::Mailbox
            && caps.image_count_min <= 3
            && 3 <= caps.image_count_max - 1
            ==> chosen_image_count(mode, caps) == 3,
        mode != PresentMode::Mailbox
            && caps.image_count_min <= 2
            && 2 <= caps.image_count_max - 1
            ==> chosen_image_count(mode, caps) == 2,
{
}

} // verus!
