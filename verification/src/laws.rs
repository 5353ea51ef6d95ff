//! The laws the transition state machine obeys, proved over the spec-level
//! step functions of [`crate::machine`].

use crate::machine::spec_create_material_step;
use crate::machine::spec_despawn_step;
use crate::machine::spec_idle_step;
use crate::machine::spec_wait_for_assets_step;
use crate::machine::TransitionMachine;
use crate::machine::Transitionalbe;
use crate::machine::TriggerMenuTransition;
use crate::material::MenuTransitionMaterial;
use crate::state::cycle_next;
use crate::state::AssetId;
use crate::state::LoadState;
use crate::state::TransitionState;
use vstd::prelude::*;

verus! {

/// While the machine is not idle, submitted requests are ignored entirely:
/// the step neither changes the machine nor requests a capture, whatever and
/// however many the requests are.  No request is ever queued.
pub proof fn lemma_requests_ignored_while_busy<T: Transitionalbe>(
    m: TransitionMachine<T>,
    requests: Seq<TriggerMenuTransition<T>>,
    window_exists: bool,
)
    requires
        m.state != TransitionState::Idle,
    ensures
        spec_idle_step(m, requests, window_exists) == (m, false),
{
}

/// Of several requests submitted in the same idle cycle, only the first is
/// honored: the step's outcome depends on nothing but the first request.
pub proof fn lemma_only_first_request_honored<T: Transitionalbe>(
    m: TransitionMachine<T>,
    requests1: Seq<TriggerMenuTransition<T>>,
    requests2: Seq<TriggerMenuTransition<T>>,
    window_exists: bool,
)
    requires
        requests1.len() > 0,
        requests2.len() > 0,
        requests1[0] == requests2[0],
    ensures
        spec_idle_step(m, requests1, window_exists) == spec_idle_step(
            m,
            requests2,
            window_exists,
        ),
{
}

/// Every step either leaves the machine's state alone or advances it to the
/// next state on the fixed cycle Idle → TakingScreenshot →
/// LoadingMaskAndScreenshot → Transitioning → Idle.  No step ever skips a
/// state or moves backwards, so every completed transition visits the four
/// states in exactly that cyclic order.
pub proof fn lemma_steps_follow_cycle<T: Transitionalbe>(
    m: TransitionMachine<T>,
    requests: Seq<TriggerMenuTransition<T>>,
    window_exists: bool,
    screenshot: Option<AssetId>,
    now: u64,
    mask_state: LoadState,
    overlay_expired: bool,
)
    ensures
        spec_idle_step(m, requests, window_exists).0.state == m.state || spec_idle_step(
            m,
            requests,
            window_exists,
        ).0.state == cycle_next(m.state),
        spec_create_material_step(m, screenshot, now).0.state == m.state
            || spec_create_material_step(m, screenshot, now).0.state == cycle_next(m.state),
        spec_wait_for_assets_step(m, mask_state).0.state == m.state || spec_wait_for_assets_step(
            m,
            mask_state,
        ).0.state == cycle_next(m.state),
        spec_despawn_step(m, overlay_expired).state == m.state || spec_despawn_step(
            m,
            overlay_expired,
        ).state == cycle_next(m.state),
{
}

/// The material built for a transition carries exactly the pending request's
/// mask and duration, the captured frame it was given, and the clock reading
/// at build time as its start time.
pub proof fn lemma_material_matches_request<T: Transitionalbe>(
    m: TransitionMachine<T>,
    screenshot: AssetId,
    now: u64,
)
    requires
        m.inv(),
        m.state == TransitionState::TakingScreenshot,
    ensures
        spec_create_material_step(m, Some(screenshot), now).1 == Some(
            MenuTransitionMaterial {
                mask: m.pending->Some_0.mask,
                previous_image: screenshot,
                startup: now,
                duration: m.pending->Some_0.duration,
            },
        ),
{
}

/// At most one overlay material is built per transition: once a poll of the
/// capture slot has built the material, every further poll builds nothing —
/// whatever it observes — until the whole transition has completed and a new
/// request has been accepted.
pub proof fn lemma_at_most_one_material_per_transition<T: Transitionalbe>(
    m: TransitionMachine<T>,
    screenshot1: Option<AssetId>,
    now1: u64,
    screenshot2: Option<AssetId>,
    now2: u64,
)
    requires
        spec_create_material_step(m, screenshot1, now1).1 is Some,
    ensures
        spec_create_material_step(
            spec_create_material_step(m, screenshot1, now1).0,
            screenshot2,
            now2,
        ).1 is None,
{
}

/// The machine after polling the mask asset's status a whole sequence of
/// times, one cycle each.
pub open spec fn spec_poll_run<T: Transitionalbe>(
    m: TransitionMachine<T>,
    polls: Seq<LoadState>,
) -> TransitionMachine<T>
    decreases polls.len(),
{
    if polls.len() == 0 {
        m
    } else {
        spec_poll_run(spec_wait_for_assets_step(m, polls[0]).0, polls.drop_first())
    }
}

/// If the mask asset never reports loaded — it keeps loading, or its load
/// fails — the machine stays in LoadingMaskAndScreenshot through any number
/// of polls: the transition stalls rather than failing or moving on.
pub proof fn lemma_unloaded_mask_stalls<T: Transitionalbe>(
    m: TransitionMachine<T>,
    polls: Seq<LoadState>,
)
    requires
        m.state == TransitionState::LoadingMaskAndScreenshot,
        forall|i: int| 0 <= i < polls.len() ==> polls[i] != LoadState::Loaded,
    ensures
        spec_poll_run(m, polls) == m,
    decreases polls.len(),
{
    if polls.len() != 0 {
        assert(spec_wait_for_assets_step(m, polls[0]).0 == m);
        assert forall|i: int| 0 <= i < polls.drop_first().len() implies polls.drop_first()[i]
            != LoadState::Loaded by {
            assert(polls.drop_first()[i] == polls[i + 1]);
        }
        lemma_unloaded_mask_stalls(m, polls.drop_first());
    }
}

} // verus!
