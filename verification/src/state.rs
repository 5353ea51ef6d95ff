//! The transition state machine's states and the asset load states it polls.

use vstd::prelude::*;

verus! {

/// The four phases of a menu transition.  The machine moves through them in
/// the fixed cyclic order given by [`cycle_next`]; it never skips a phase and
/// never moves backwards.
#[derive(Clone, Copy, Debug, PartialEq, Eq, Structural)]
pub enum TransitionState {
    /// No transition is in flight; the machine polls for requests.
    Idle,
    /// A capture of the current frame has been requested and is awaited.
    TakingScreenshot,
    /// The overlay is spawned; the mask asset is still being loaded.
    LoadingMaskAndScreenshot,
    /// The effect is playing; the overlay's countdown is running.
    Transitioning,
}

impl Default for TransitionState {
    /// A fresh machine starts out idle.
    fn default() -> (r: Self)
        ensures
            r == TransitionState::Idle,
    {
        TransitionState::Idle
    }
}

/// The successor of each state on the fixed cycle
/// Idle → TakingScreenshot → LoadingMaskAndScreenshot → Transitioning → Idle.
pub open spec fn cycle_next(s: TransitionState) -> TransitionState {
    match s {
        TransitionState::Idle => TransitionState::TakingScreenshot,
        TransitionState::TakingScreenshot => TransitionState::LoadingMaskAndScreenshot,
        TransitionState::LoadingMaskAndScreenshot => TransitionState::Transitioning,
        TransitionState::Transitioning => TransitionState::Idle,
    }
}

/// The load status of an asset, as reported by the external asset system
/// when the machine polls it.
#[derive(Clone, Copy, Debug, PartialEq, Eq, Structural)]
pub enum LoadState {
    /// Loading has not begun.
    NotLoaded,
    /// Loading is still under way.
    Loading,
    /// The asset is fully loaded.
    Loaded,
    /// Loading failed.  The machine does not distinguish this from
    /// [`LoadState::Loading`]: a transition whose mask fails to load stalls.
    Failed,
}

/// An identifier under which the external asset system holds an image: the
/// mask texture, or the captured frame once it has been stored as a texture.
/// The image data itself never passes through this crate.
pub type AssetId = u64;

} // verus!
