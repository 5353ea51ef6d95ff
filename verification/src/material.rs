//! The overlay material that renders the transition effect.
//!
//! The material binds two textures — the mask and the captured previous
//! frame — and two scalars: the process clock at build time and the requested
//! duration.  The fragment shader drives a wipe between the captured frame
//! and the live frame from those four inputs.  This crate only builds the
//! record; the shell hands it to the renderer.

use crate::state::AssetId;
use vstd::prelude::*;

verus! {

/// The description of the full-screen transition overlay, built once per
/// transition when the captured frame becomes available and read-only
/// thereafter.
#[derive(Clone, Copy, Debug, PartialEq, Eq, Structural)]
pub struct MenuTransitionMaterial {
    /// The mask texture shaping the wipe.
    pub mask: AssetId,
    /// The captured frame the effect transitions away from.
    pub previous_image: AssetId,
    /// The process clock at the moment the material was built, in
    /// milliseconds of (wrapping) elapsed time.
    pub startup: u64,
    /// How long the effect plays, in milliseconds.
    pub duration: u64,
}

impl MenuTransitionMaterial {
    /// Builds the material for one transition: the given mask and captured
    /// frame, the clock reading `now` as the start time, and the requested
    /// duration.
    pub fn new(mask: AssetId, previous_image: AssetId, duration: u64, now: u64) -> (m: Self)
        ensures
            m == (MenuTransitionMaterial { mask, previous_image, startup: now, duration }),
    {
        MenuTransitionMaterial { mask, previous_image, startup: now, duration }
    }
}

} // verus!
