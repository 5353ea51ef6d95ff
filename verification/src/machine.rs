//! The four-state transition state machine.
//!
//! The machine is an explicitly owned value the engine-facing shell drives
//! once per update cycle.  Each step takes the observations of the current
//! cycle as plain values and returns the action the shell must carry out;
//! each step's effect is pinned down by a spec-level step function, so that
//! the machine's laws can be stated and proved over those functions.

use crate::material::MenuTransitionMaterial;
use crate::state::AssetId;
use crate::state::LoadState;
use crate::state::TransitionState;
use vstd::prelude::*;

verus! {

/// Marker for types that can serve as the application's state identifier.
/// The machine only stores such a value and hands it back on commit, so all
/// it asks is that states can be compared and duplicated.
pub trait Transitionalbe: Clone + PartialEq + Eq {

}

impl<T: Clone + PartialEq + Eq> Transitionalbe for T {

}

/// A request to transition to a new application state with a transition
/// effect: a screenshot of the state before will be taken and applied with a
/// filter mask.
pub struct TriggerMenuTransition<T: Transitionalbe> {
    /// The application state to transition to.
    pub target_state: T,
    /// How long the effect plays, in milliseconds.
    pub duration: u64,
    /// The mask texture.  It needs to load fast: be careful with the
    /// texture size, or preload the image in advance.
    pub mask: AssetId,
}

/// The record the machine keeps while a transition is in flight: the
/// accepted request, plus the captured frame's texture once it exists.  It
/// exists exactly while the machine is in [`TransitionState::TakingScreenshot`]
/// or [`TransitionState::LoadingMaskAndScreenshot`].
pub struct PendingTransition<T: Transitionalbe> {
    /// The application state to transition to.
    pub target_state: T,
    /// How long the effect plays, in milliseconds.
    pub duration: u64,
    /// The mask texture.
    pub mask: AssetId,
    /// The captured frame, once it has been stored as a texture.
    pub screenshot: Option<AssetId>,
}

/// What the shell must carry out once the transition commits: overwrite the
/// application's state store with `target_state`, and start the overlay's
/// countdown over `duration` milliseconds.
pub struct CommitTransition<T: Transitionalbe> {
    /// The application state the transition commits to.
    pub target_state: T,
    /// How long the overlay stays, in milliseconds.
    pub duration: u64,
}

/// The transition state machine: the current phase, and the in-flight
/// request while one exists.
pub struct TransitionMachine<T: Transitionalbe> {
    /// The current phase.
    pub state: TransitionState,
    /// The in-flight request.
    pub pending: Option<PendingTransition<T>>,
}

/// What observing the pending requests while idle does.  A request is
/// accepted only when the machine is idle, at least one request is pending
/// and a primary window exists; then the machine keeps the first request —
/// all others are dropped, never queued — and asks the shell to begin a
/// frame capture.  In every other case nothing changes and no capture is
/// requested: a missing window is "not yet ready", not an error.
pub open spec fn spec_idle_step<T: Transitionalbe>(
    m: TransitionMachine<T>,
    requests: Seq<TriggerMenuTransition<T>>,
    window_exists: bool,
) -> (TransitionMachine<T>, bool) {
    if m.state == TransitionState::Idle && requests.len() > 0 && window_exists {
        (
            TransitionMachine {
                state: TransitionState::TakingScreenshot,
                pending: Some(
                    PendingTransition {
                        target_state: requests[0].target_state,
                        duration: requests[0].duration,
                        mask: requests[0].mask,
                        screenshot: None,
                    },
                ),
            },
            true,
        )
    } else {
        (m, false)
    }
}

/// What polling the capture slot does.  While the slot is locked or empty
/// (`screenshot` is `None`) nothing changes.  Once the captured frame has
/// been stored as a texture, the machine records that texture, builds the
/// overlay material — mask and captured frame from the pending record, start
/// time `now`, the requested duration — and moves on to waiting for the mask
/// asset.
pub open spec fn spec_create_material_step<T: Transitionalbe>(
    m: TransitionMachine<T>,
    screenshot: Option<AssetId>,
    now: u64,
) -> (TransitionMachine<T>, Option<MenuTransitionMaterial>)
    recommends
        m.inv(),
{
    if m.state == TransitionState::TakingScreenshot && screenshot is Some {
        let p = m.pending->Some_0;
        (
            TransitionMachine {
                state: TransitionState::LoadingMaskAndScreenshot,
                pending: Some(
                    PendingTransition {
                        target_state: p.target_state,
                        duration: p.duration,
                        mask: p.mask,
                        screenshot: Some(screenshot->Some_0),
                    },
                ),
            },
            Some(
                MenuTransitionMaterial {
                    mask: p.mask,
                    previous_image: screenshot->Some_0,
                    startup: now,
                    duration: p.duration,
                },
            ),
        )
    } else {
        (m, None)
    }
}

/// What polling the mask asset's load status does.  Only a status of
/// [`LoadState::Loaded`] lets the transition proceed: the machine discards
/// the pending record, commits — the shell must set the application state
/// and start the overlay countdown — and starts transitioning.  Under every
/// other status, a failed load included, nothing changes: the machine keeps
/// waiting.
pub open spec fn spec_wait_for_assets_step<T: Transitionalbe>(
    m: TransitionMachine<T>,
    mask_state: LoadState,
) -> (TransitionMachine<T>, Option<CommitTransition<T>>)
    recommends
        m.inv(),
{
    if m.state == TransitionState::LoadingMaskAndScreenshot && mask_state == LoadState::Loaded {
        let p = m.pending->Some_0;
        (
            TransitionMachine { state: TransitionState::Transitioning, pending: None },
            Some(CommitTransition { target_state: p.target_state, duration: p.duration }),
        )
    } else {
        (m, None)
    }
}

/// What the despawn sweep does to the machine.  Once the overlay's countdown
/// has expired and the overlay is gone, an ongoing transition is over and the
/// machine returns to idle; otherwise nothing changes.
pub open spec fn spec_despawn_step<T: Transitionalbe>(
    m: TransitionMachine<T>,
    overlay_expired: bool,
) -> TransitionMachine<T> {
    if m.state == TransitionState::Transitioning && overlay_expired {
        TransitionMachine { state: TransitionState::Idle, pending: m.pending }
    } else {
        m
    }
}

impl<T: Transitionalbe> TransitionMachine<T> {
    /// The machine's invariant: an in-flight record exists exactly while a
    /// capture or an asset load is awaited.
    pub open spec fn inv(self) -> bool {
        self.pending is Some <==> (self.state == TransitionState::TakingScreenshot
            || self.state == TransitionState::LoadingMaskAndScreenshot)
    }

    /// A fresh machine: idle, with nothing in flight.
    pub fn new() -> (m: Self)
        ensures
            m.state == TransitionState::Idle,
            m.pending is None,
            m.inv(),
    {
        TransitionMachine { state: TransitionState::Idle, pending: None }
    }

    /// One idle-phase update: observes this cycle's pending requests and
    /// whether a primary window exists, and returns whether the shell must
    /// begin a frame capture.  See [`spec_idle_step`].
    pub fn idle_step(&mut self, requests: Vec<TriggerMenuTransition<T>>, window_exists: bool) -> (begin_capture:
        bool)
        requires
            old(self).inv(),
        ensures
            final(self).inv(),
            (*final(self), begin_capture) == spec_idle_step(*old(self), requests@, window_exists),
    {
        if self.state == TransitionState::Idle && requests.len() > 0 && window_exists {
            let mut requests = requests;
            let first = requests.remove(0);
            self.pending = Some(
                PendingTransition {
                    target_state: first.target_state,
                    duration: first.duration,
                    mask: first.mask,
                    screenshot: None,
                },
            );
            self.state = TransitionState::TakingScreenshot;
            true
        } else {
            false
        }
    }

    /// One capture-phase update: takes the captured frame's texture if the
    /// capture slot has been filled, and returns the overlay material the
    /// shell must spawn, if it is to spawn one this cycle.  `now` is the
    /// process clock in milliseconds.  See [`spec_create_material_step`].
    pub fn create_material_step(&mut self, screenshot: Option<AssetId>, now: u64) -> (material:
        Option<MenuTransitionMaterial>)
        requires
            old(self).inv(),
        ensures
            final(self).inv(),
            (*final(self), material) == spec_create_material_step(*old(self), screenshot, now),
    {
        if !(self.state == TransitionState::TakingScreenshot) {
            return None;
        }
        match screenshot {
            None => None,
            Some(shot) => {
                match &mut self.pending {
                    Some(p) => {
                        p.screenshot = Some(shot);
                        let material = MenuTransitionMaterial::new(p.mask, shot, p.duration, now);
                        self.state = TransitionState::LoadingMaskAndScreenshot;
                        Some(material)
                    },
                    None => None,  // never reached: the invariant gives a pending record here
                }
            },
        }
    }

    /// One load-phase update: polls the mask asset's load status and, once
    /// it is loaded, returns what the shell must commit.  See
    /// [`spec_wait_for_assets_step`].
    pub fn wait_for_assets_step(&mut self, mask_state: LoadState) -> (commit: Option<
        CommitTransition<T>,
    >)
        requires
            old(self).inv(),
        ensures
            final(self).inv(),
            (*final(self), commit) == spec_wait_for_assets_step(*old(self), mask_state),
    {
        if self.state == TransitionState::LoadingMaskAndScreenshot && mask_state
            == LoadState::Loaded {
            let taken = self.pending.take();
            match taken {
                Some(p) => {
                    self.state = TransitionState::Transitioning;
                    Some(CommitTransition { target_state: p.target_state, duration: p.duration })
                },
                None => None,  // never reached: the invariant gives a pending record here
            }
        } else {
            None
        }
    }

    /// One despawn sweep as seen by the machine: the shell reports whether
    /// the overlay's countdown expired this cycle (upon which the shell has
    /// despawned the overlay), and the machine returns to idle if an ongoing
    /// transition is thereby over.  See [`spec_despawn_step`].
    pub fn despawn_step(&mut self, overlay_expired: bool)
        requires
            old(self).inv(),
        ensures
            final(self).inv(),
            *final(self) == spec_despawn_step(*old(self), overlay_expired),
    {
        if self.state == TransitionState::Transitioning && overlay_expired {
            self.state = TransitionState::Idle;
        }
    }
}

} // verus!
