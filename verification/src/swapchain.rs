//! Swapchain configuration: surface-format, present-mode, extent and
//! image-count selection, and the sharing-mode decision.
//!
//! Creation and recreation share this one derivation; it is recomputed on
//! every (re)creation and never cached across resizes. Formats, color
//! spaces, present modes and transforms are carried as the raw integer
//! values the graphics API reports, under named constants for the ones
//! the policies test.

use vstd::prelude::*;
use crate::device::QueueFamilyIndices;

verus! {

/// Raw value of the 8-bit BGRA sRGB format.
pub const FORMAT_B8G8R8A8_SRGB: u32 = 50;
/// Raw value of the non-linear sRGB color space.
pub const COLOR_SPACE_SRGB_NONLINEAR: u32 = 0;
/// Raw value of the low-latency triple-buffering present mode.
pub const PRESENT_MODE_MAILBOX: u32 = 1;
/// Raw value of the always-available FIFO present mode.
pub const PRESENT_MODE_FIFO: u32 = 2;
/// Sentinel width/height by which a surface reports that the application
/// decides the extent.
pub const UNDEFINED_EXTENT: u32 = 0xffff_ffff;

/// A width and height in physical pixels.
#[derive(Clone, Copy, Debug, PartialEq, Eq, Structural)]
pub struct Extent2D {
    pub width: u32,
    pub height: u32,
}

/// A supported surface format: a color format paired with a color space.
#[derive(Clone, Copy, Debug, PartialEq, Eq, Structural)]
pub struct SurfaceFormat {
    pub format: u32,
    pub color_space: u32,
}

/// What the surface reports about itself on the chosen device.
#[derive(Clone, Copy, Debug, PartialEq, Eq, Structural)]
pub struct SurfaceCapabilities {
    pub min_image_count: u32,
    /// Zero means the device declares no upper bound.
    pub max_image_count: u32,
    /// `UNDEFINED_EXTENT` on both axes means the application decides.
    pub current_extent: Extent2D,
    pub min_image_extent: Extent2D,
    pub max_image_extent: Extent2D,
    pub current_transform: u32,
}

/// The preferred format: 8-bit BGRA with non-linear sRGB.
pub open spec fn is_preferred_format(f: SurfaceFormat) -> bool {
    f.format == FORMAT_B8G8R8A8_SRGB && f.color_space == COLOR_SPACE_SRGB_NONLINEAR
}

/// The format the policy chooses: the preferred entry when the supported
/// list holds it, else the first supported entry.
pub open spec fn chosen_format(formats: Seq<SurfaceFormat>) -> SurfaceFormat {
    if exists|i: int| 0 <= i < formats.len() && is_preferred_format(formats[i]) {
        SurfaceFormat { format: FORMAT_B8G8R8A8_SRGB, color_space: COLOR_SPACE_SRGB_NONLINEAR }
    } else {
        formats[0]
    }
}

/// Pick the surface format: exact preferred match or first-available
/// fallback, no partial scoring.
pub fn get_swapchain_surface_format(formats: &Vec<SurfaceFormat>) -> (r: SurfaceFormat)
    requires
        formats@.len() > 0,
    ensures
        r == chosen_format(formats@),
{
    let mut idx: usize = 0;
    while idx < formats.len()
        invariant
            idx <= formats@.len(),
            forall|j: int| 0 <= j < idx ==> !is_preferred_format(formats@[j]),
        decreases formats@.len() - idx,
    {
        let f = formats[idx];
        if f.format == FORMAT_B8G8R8A8_SRGB && f.color_space == COLOR_SPACE_SRGB_NONLINEAR {
            return f;
        }
        idx = idx + 1;
    }
    formats[0]
}

/// Law: a supported list holding the preferred (8-bit BGRA, sRGB
/// non-linear) entry makes selection return that entry; any other list
/// makes it return the first entry, deterministically.
pub proof fn lemma_format_selection(formats: Seq<SurfaceFormat>)
    requires
        formats.len() > 0,
    ensures
        (exists|i: int| 0 <= i < formats.len() && is_preferred_format(formats[i]))
            ==> is_preferred_format(chosen_format(formats)) && formats.contains(chosen_format(formats)),
        !(exists|i: int| 0 <= i < formats.len() && is_preferred_format(formats[i]))
            ==> chosen_format(formats) == formats[0],
{
    if exists|i: int| 0 <= i < formats.len() && is_preferred_format(formats[i]) {
        let i = choose|i: int| 0 <= i < formats.len() && is_preferred_format(formats[i]);
        assert(formats[i] == chosen_format(formats));
    }
}

/// The present mode the policy chooses: triple buffering when supported,
/// else the universally available FIFO mode.
pub open spec fn chosen_present_mode(modes: Seq<u32>) -> u32 {
    if modes.contains(PRESENT_MODE_MAILBOX) {
        PRESENT_MODE_MAILBOX
    } else {
        PRESENT_MODE_FIFO
    }
}

/// Pick the present mode: the low-latency triple-buffering mode when the
/// device supports it, else the FIFO-equivalent mode the API guarantees.
pub fn get_swapchain_present_mode(modes: &Vec<u32>) -> (r: u32)
    ensures
        r == chosen_present_mode(modes@),
{
    let mut idx: usize = 0;
    while idx < modes.len()
        invariant
            idx <= modes@.len(),
            forall|j: int| 0 <= j < idx ==> modes@[j] != PRESENT_MODE_MAILBOX,
        decreases modes@.len() - idx,
    {
        if modes[idx] == PRESENT_MODE_MAILBOX {
            assert(modes@.contains(PRESENT_MODE_MAILBOX));
            return PRESENT_MODE_MAILBOX;
        }
        idx = idx + 1;
    }
    assert(!modes@.contains(PRESENT_MODE_MAILBOX));
    PRESENT_MODE_FIFO
}

/// Law: a mode list holding the triple-buffering mode makes selection
/// return it; any other list makes it return the universally available
/// fallback mode.
pub proof fn lemma_present_mode_selection(modes: Seq<u32>)
    ensures
        modes.contains(PRESENT_MODE_MAILBOX) ==> chosen_present_mode(modes) == PRESENT_MODE_MAILBOX,
        !modes.contains(PRESENT_MODE_MAILBOX) ==> chosen_present_mode(modes) == PRESENT_MODE_FIFO,
{
}

/// One axis clamped into the surface-reported range: the larger of `min`
/// and the smaller of `max` and `v`.
pub open spec fn clamp_axis(min: u32, max: u32, v: u32) -> u32 {
    let capped: u32 = if v > max { max } else { v };
    if capped < min { min } else { capped }
}

/// The extent the policy chooses: the surface-reported extent verbatim
/// when it is defined, else the window size clamped per axis into the
/// reported range.
pub open spec fn chosen_extent(window: Extent2D, caps: SurfaceCapabilities) -> Extent2D {
    if caps.current_extent.width != UNDEFINED_EXTENT {
        caps.current_extent
    } else {
        Extent2D {
            width: clamp_axis(caps.min_image_extent.width, caps.max_image_extent.width, window.width),
            height: clamp_axis(caps.min_image_extent.height, caps.max_image_extent.height, window.height),
        }
    }
}

/// Pick the swapchain extent from the window's physical pixel size and
/// the surface capabilities.
pub fn get_swapchain_extent(window: Extent2D, caps: &SurfaceCapabilities) -> (r: Extent2D)
    ensures
        r == chosen_extent(window, *caps),
{
    if caps.current_extent.width != UNDEFINED_EXTENT {
        caps.current_extent
    } else {
        let w_capped = if window.width > caps.max_image_extent.width {
            caps.max_image_extent.width
        } else {
            window.width
        };
        let h_capped = if window.height > caps.max_image_extent.height {
            caps.max_image_extent.height
        } else {
            window.height
        };
        Extent2D {
            width: if w_capped < caps.min_image_extent.width {
                caps.min_image_extent.width
            } else {
                w_capped
            },
            height: if h_capped < caps.min_image_extent.height {
                caps.min_image_extent.height
            } else {
                h_capped
            },
        }
    }
}

/// Law: a clamped axis always lands inside `[min, max]`, and a value
/// already inside comes back unchanged.
pub proof fn lemma_clamp_axis(min: u32, max: u32, v: u32)
    requires
        min <= max,
    ensures
        min <= clamp_axis(min, max, v) <= max,
        min <= v <= max ==> clamp_axis(min, max, v) == v,
{
}

/// Law: with the sentinel current extent the selection equals the window
/// size clamped component-wise into `[min, max]`; with a defined current
/// extent it equals that extent exactly, ignoring the window size.
pub proof fn lemma_extent_selection(window: Extent2D, caps: SurfaceCapabilities)
    ensures
        caps.current_extent.width == UNDEFINED_EXTENT ==> chosen_extent(window, caps)
            == (Extent2D {
            width: clamp_axis(caps.min_image_extent.width, caps.max_image_extent.width, window.width),
            height: clamp_axis(caps.min_image_extent.height, caps.max_image_extent.height, window.height),
        }),
        caps.current_extent.width != UNDEFINED_EXTENT ==> chosen_extent(window, caps)
            == caps.current_extent,
{
}

/// The image count the policy chooses: the reported minimum plus one (so
/// acquiring an image need not block on the driver), clamped down to the
/// reported maximum when the device declares one (zero means unbounded).
pub open spec fn chosen_image_count(caps: SurfaceCapabilities) -> int {
    let wanted = caps.min_image_count + 1;
    if caps.max_image_count != 0 && wanted > caps.max_image_count {
        caps.max_image_count as int
    } else {
        wanted
    }
}

/// Pick the number of swapchain images to request.
pub fn get_swapchain_image_count(caps: &SurfaceCapabilities) -> (r: u32)
    requires
        caps.min_image_count < u32::MAX,
    ensures
        r == chosen_image_count(*caps),
{
    let mut count: u32 = caps.min_image_count + 1;
    if caps.max_image_count != 0 && count > caps.max_image_count {
        count = caps.max_image_count;
    }
    count
}

/// Law: the chosen image count is at least the reported minimum plus one
/// and, when the device declares a nonzero maximum, at most that maximum.
/// The lower bound asks that a declared maximum leave room above the
/// minimum, as a device exposing any extra image does.
pub proof fn lemma_image_count_bounds(caps: SurfaceCapabilities)
    requires
        caps.max_image_count == 0 || caps.max_image_count > caps.min_image_count,
    ensures
        chosen_image_count(caps) >= caps.min_image_count + 1,
        caps.max_image_count != 0 ==> chosen_image_count(caps) <= caps.max_image_count,
{
}

/// How the swapchain images are shared between the queues.
#[derive(Clone, Copy, Debug, PartialEq, Eq, Structural)]
pub enum SharingMode {
    /// Images belong to the graphics and transfer families alone.
    Exclusive,
    /// Images are shared across graphics, presentation and transfer with
    /// concurrent access (the simpler mode; explicit ownership transfer
    /// is out of scope).
    Concurrent,
}

/// The sharing mode the policy chooses: concurrent when presentation
/// lives on a different family than graphics, else exclusive.
pub open spec fn chosen_sharing_mode(q: QueueFamilyIndices) -> SharingMode {
    if q.graphics != q.presentation {
        SharingMode::Concurrent
    } else {
        SharingMode::Exclusive
    }
}

/// The families named in the swapchain description: all three roles under
/// concurrent sharing, graphics and transfer under exclusive ownership.
pub open spec fn sharing_queue_families(q: QueueFamilyIndices) -> Seq<u32> {
    if q.graphics != q.presentation {
        seq![q.graphics, q.presentation, q.transfer]
    } else {
        seq![q.graphics, q.transfer]
    }
}

/// Decide the image sharing mode and the family list to declare with it.
pub fn resolve_sharing(q: &QueueFamilyIndices) -> (r: (SharingMode, Vec<u32>))
    ensures
        r.0 == chosen_sharing_mode(*q),
        r.1@ == sharing_queue_families(*q),
{
    let mut families: Vec<u32> = Vec::new();
    if q.graphics != q.presentation {
        families.push(q.graphics);
        families.push(q.presentation);
        families.push(q.transfer);
        proof {
            assert(families@ =~= sharing_queue_families(*q));
        }
        (SharingMode::Concurrent, families)
    } else {
        families.push(q.graphics);
        families.push(q.transfer);
        proof {
            assert(families@ =~= sharing_queue_families(*q));
        }
        (SharingMode::Exclusive, families)
    }
}

/// Everything the foreign-API layer needs to describe the swapchain:
/// derived anew on every creation and recreation, never cached.
#[derive(Clone, Debug, PartialEq)]
pub struct SwapchainConfig {
    pub format: SurfaceFormat,
    pub present_mode: u32,
    pub extent: Extent2D,
    pub image_count: u32,
    pub sharing_mode: SharingMode,
    pub queue_family_indices: Vec<u32>,
    pub pre_transform: u32,
}

/// Derive the full presentation configuration from one round of surface
/// queries: format, present mode, extent, image count, sharing mode and
/// the surface's current transform.
pub fn derive_swapchain_config(
    window: Extent2D,
    caps: &SurfaceCapabilities,
    formats: &Vec<SurfaceFormat>,
    modes: &Vec<u32>,
    q: &QueueFamilyIndices,
) -> (c: SwapchainConfig)
    requires
        formats@.len() > 0,
        caps.min_image_count < u32::MAX,
    ensures
        c.format == chosen_format(formats@),
        c.present_mode == chosen_present_mode(modes@),
        c.extent == chosen_extent(window, *caps),
        c.image_count == chosen_image_count(*caps),
        c.sharing_mode == chosen_sharing_mode(*q),
        c.queue_family_indices@ == sharing_queue_families(*q),
        c.pre_transform == caps.current_transform,
{
    let format = get_swapchain_surface_format(formats);
    let present_mode = get_swapchain_present_mode(modes);
    let extent = get_swapchain_extent(window, caps);
    let image_count = get_swapchain_image_count(caps);
    let (sharing_mode, queue_family_indices) = resolve_sharing(q);
    SwapchainConfig {
        format,
        present_mode,
        extent,
        image_count,
        sharing_mode,
        queue_family_indices,
        pre_transform: caps.current_transform,
    }
}

} // verus!
