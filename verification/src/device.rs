//! The decisions of device and swapchain setup that the engine makes
//! itself: which queue family the single graphics queue is opened on,
//! and which of the surface's reported formats and composite-alpha
//! modes the presentation chain is built with.  Enumerating devices,
//! opening the queue and building the chain are platform work; the
//! embedding program reports the capabilities as plain values and
//! performs the fatal startup failure when none fits.

use vstd::prelude::*;

verus! {

/// Picks the first queue family that supports graphics, the family
/// the device manager opens its single queue on.  `None` means
/// context construction must fail fatally: there is no degraded
/// fallback.
pub fn select_graphics_queue_family(supports_graphics: &Vec<bool>) -> (r: Option<usize>)
    ensures
        r matches Some(i) ==> i < supports_graphics@.len() && supports_graphics@[i as int]
            && forall|j: int| 0 <= j < i ==> !supports_graphics@[j],
        r is None ==> forall|j: int|
            0 <= j < supports_graphics@.len() ==> !supports_graphics@[j],
{
    let mut k: usize = 0;
    while k < supports_graphics.len()
        invariant
            k <= supports_graphics@.len(),
            forall|j: int| 0 <= j < k ==> !supports_graphics@[j],
        decreases supports_graphics@.len() - k,
    {
        if supports_graphics[k] {
            return Some(k);
        }
        k = k + 1;
    }
    None
}

/// Picks the presentation format the chain is built with: the first
/// of the surface's supported formats, in the order the platform
/// lists them (formats are carried as the platform's numeric
/// identifiers).  `None` means the surface reported no format and
/// chain creation must fail.
pub fn select_surface_format(formats: &Vec<u32>) -> (r: Option<u32>)
    ensures
        formats@.len() >= 1 ==> r == Some(formats@[0]),
        formats@.len() == 0 ==> r is None,
{
    if formats.len() >= 1 {
        Some(formats[0])
    } else {
        None
    }
}

/// Picks the composite-alpha mode the chain is built with: the first
/// mode the surface reports as supported (carried as the platform's
/// numeric identifier).  `None` means none is available and chain
/// creation must fail.
pub fn select_composite_alpha(modes: &Vec<u32>) -> (r: Option<u32>)
    ensures
        modes@.len() >= 1 ==> r == Some(modes@[0]),
        modes@.len() == 0 ==> r is None,
{
    if modes.len() >= 1 {
        Some(modes[0])
    } else {
        None
    }
}

} // verus!
