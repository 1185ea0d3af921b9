use vstd::prelude::*;

verus! {

/// Width and height of a texture or viewport, in pixels.
#[derive(Clone, Copy, Debug, PartialEq, Eq, Structural)]
pub struct Extent {
    pub width: u32,
    pub height: u32,
}

/// Tuning of the coarse prepass: its texture is the viewport divided by
/// `resolution_divisor` on each side, its hit threshold is multiplied by
/// `distance_multiplier`, and it marches at most `max_steps` steps.
#[derive(Clone, Copy, Debug, PartialEq, Eq, Structural)]
pub struct CoarsePassSettings {
    pub resolution_divisor: u32,
    pub distance_multiplier: u32,
    pub max_steps: u32,
}

impl CoarsePassSettings {
    /// The divisor names a resolution.
    pub open spec fn wf(&self) -> bool {
        self.resolution_divisor > 0
    }

    /// Settings with the given knobs; `None` for a zero divisor, which
    /// names no resolution.
    pub fn new(resolution_divisor: u32, distance_multiplier: u32, max_steps: u32) -> (r: Option<CoarsePassSettings>)
        ensures
            r is None <==> resolution_divisor == 0,
            r matches Some(s) ==> s.wf() && s == (CoarsePassSettings {
                resolution_divisor,
                distance_multiplier,
                max_steps,
            }),
    {
        if resolution_divisor == 0 {
            None
        } else {
            Some(CoarsePassSettings { resolution_divisor, distance_multiplier, max_steps })
        }
    }
}

impl Default for CoarsePassSettings {
    /// A sixteenth of the resolution, a sixteen-fold threshold, sixteen steps.
    fn default() -> (r: CoarsePassSettings)
        ensures
            r.wf(),
            r == (CoarsePassSettings { resolution_divisor: 16, distance_multiplier: 16, max_steps: 16 }),
    {
        CoarsePassSettings { resolution_divisor: 16, distance_multiplier: 16, max_steps: 16 }
    }
}

/// One side of the coarse texture: the viewport side divided by the
/// divisor, and never less than one pixel.
pub open spec fn coarse_side(side: u32, divisor: u32) -> u32 {
    if side / divisor >= 1 {
        (side / divisor) as u32
    } else {
        1
    }
}

/// The size of the coarse texture for a viewport.
pub open spec fn coarse_extent_spec(viewport: Extent, divisor: u32) -> Extent {
    Extent { width: coarse_side(viewport.width, divisor), height: coarse_side(viewport.height, divisor) }
}

/// The size of the coarse texture for this viewport.
pub fn coarse_extent(viewport: Extent, settings: &CoarsePassSettings) -> (r: Extent)
    requires
        settings.wf(),
    ensures
        r == coarse_extent_spec(viewport, settings.resolution_divisor),
{
    let w = viewport.width / settings.resolution_divisor;
    let h = viewport.height / settings.resolution_divisor;
    Extent { width: if w >= 1 { w } else { 1 }, height: if h >= 1 { h } else { 1 } }
}

/// The coarse texture to create this frame: the wanted size when there is
/// no texture yet or the existing one has another size, `None` when the
/// existing one is kept.
pub fn coarse_texture_update(existing: Option<Extent>, viewport: Extent, settings: &CoarsePassSettings) -> (r: Option<
    Extent,
>)
    requires
        settings.wf(),
    ensures
        existing == Some(coarse_extent_spec(viewport, settings.resolution_divisor)) ==> r is None,
        existing != Some(coarse_extent_spec(viewport, settings.resolution_divisor)) ==> r == Some(
            coarse_extent_spec(viewport, settings.resolution_divisor),
        ),
{
    let desired = coarse_extent(viewport, settings);
    match existing {
        Some(e) => {
            if e.width == desired.width && e.height == desired.height {
                None
            } else {
                Some(desired)
            }
        },
        None => Some(desired),
    }
}

} // verus!
