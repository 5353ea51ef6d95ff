use bevy_2d_menu_mask_transition::machine::TransitionMachine;
use bevy_2d_menu_mask_transition::machine::TriggerMenuTransition;
use bevy_2d_menu_mask_transition::material::MenuTransitionMaterial;
use bevy_2d_menu_mask_transition::state::LoadState;
use bevy_2d_menu_mask_transition::state::TransitionState;
use bevy_2d_menu_mask_transition::timer::DespawnTimer;

#[derive(Debug, Clone, PartialEq, Eq)]
enum GameState {
    Menu,
    InGame,
}

fn request(target: GameState, duration: u64, mask: u64) -> TriggerMenuTransition<GameState> {
    TriggerMenuTransition { target_state: target, duration, mask }
}

#[test]
fn fresh_machine_is_idle() {
    let m = TransitionMachine::<GameState>::new();
    assert_eq!(m.state, TransitionState::Idle);
    assert!(m.pending.is_none());
}

#[test]
fn end_to_end_transition() {
    // Submit {target_state: InGame, duration: 1.0s, mask: "noise.webp"} while
    // idle with a valid render target, and drive the whole cycle through.
    let mask_id = 7u64;
    let mut m = TransitionMachine::<GameState>::new();

    let begin = m.idle_step(vec![request(GameState::InGame, 1000, mask_id)], true);
    assert!(begin);
    assert_eq!(m.state, TransitionState::TakingScreenshot);

    // The capture callback has not fired yet: nothing happens.
    assert!(m.create_material_step(None, 400).is_none());
    assert_eq!(m.state, TransitionState::TakingScreenshot);

    // The captured frame arrives and is stored as texture 9.
    let material = m.create_material_step(Some(9), 500).expect("material must be built");
    assert_eq!(
        material,
        MenuTransitionMaterial { mask: mask_id, previous_image: 9, startup: 500, duration: 1000 }
    );
    assert_eq!(m.state, TransitionState::LoadingMaskAndScreenshot);
    assert_eq!(m.pending.as_ref().unwrap().screenshot, Some(9));

    // The mask is still loading: the machine waits.
    assert!(m.wait_for_assets_step(LoadState::Loading).is_none());
    assert_eq!(m.state, TransitionState::LoadingMaskAndScreenshot);

    // The mask reports loaded: the transition commits.
    let commit = m.wait_for_assets_step(LoadState::Loaded).expect("transition must commit");
    assert_eq!(commit.target_state, GameState::InGame);
    assert_eq!(commit.duration, 1000);
    assert_eq!(m.state, TransitionState::Transitioning);
    assert!(m.pending.is_none());

    // The overlay counts down the requested duration in frame time.
    let mut timer = DespawnTimer::new(commit.duration);
    assert!(!timer.tick(400));
    m.despawn_step(false);
    assert_eq!(m.state, TransitionState::Transitioning);
    assert!(!timer.tick(400));
    assert!(timer.tick(400));
    m.despawn_step(true);
    assert_eq!(m.state, TransitionState::Idle);
    assert!(m.pending.is_none());
}

#[test]
fn requests_while_busy_are_ignored() {
    let mut m = TransitionMachine::<GameState>::new();
    assert!(m.idle_step(vec![request(GameState::InGame, 1000, 1)], true));
    assert_eq!(m.state, TransitionState::TakingScreenshot);

    // Further submissions while a transition is in flight are dropped.
    let begin = m.idle_step(vec![request(GameState::Menu, 50, 2)], true);
    assert!(!begin);
    assert_eq!(m.state, TransitionState::TakingScreenshot);
    let p = m.pending.as_ref().unwrap();
    assert_eq!(p.target_state, GameState::InGame);
    assert_eq!(p.duration, 1000);
    assert_eq!(p.mask, 1);
}

#[test]
fn only_first_request_of_a_cycle_is_honored() {
    let mut m = TransitionMachine::<GameState>::new();
    let begin = m.idle_step(
        vec![request(GameState::InGame, 1000, 1), request(GameState::Menu, 50, 2)],
        true,
    );
    assert!(begin);
    let p = m.pending.as_ref().unwrap();
    assert_eq!(p.target_state, GameState::InGame);
    assert_eq!(p.duration, 1000);
    assert_eq!(p.mask, 1);
    assert_eq!(p.screenshot, None);
}

#[test]
fn no_requests_means_no_capture() {
    let mut m = TransitionMachine::<GameState>::new();
    assert!(!m.idle_step(vec![], true));
    assert_eq!(m.state, TransitionState::Idle);
    assert!(m.pending.is_none());
}

#[test]
fn missing_window_defers_the_request() {
    let mut m = TransitionMachine::<GameState>::new();
    let begin = m.idle_step(vec![request(GameState::InGame, 1000, 1)], false);
    assert!(!begin);
    assert_eq!(m.state, TransitionState::Idle);
    assert!(m.pending.is_none());
}

#[test]
fn material_carries_request_and_clock() {
    let mut m = TransitionMachine::<GameState>::new();
    assert!(m.idle_step(vec![request(GameState::Menu, 2500, 11)], true));
    let material = m.create_material_step(Some(42), 123456).unwrap();
    assert_eq!(material.mask, 11);
    assert_eq!(material.previous_image, 42);
    assert_eq!(material.startup, 123456);
    assert_eq!(material.duration, 2500);
}

#[test]
fn material_new_builds_exactly_the_given_fields() {
    let material = MenuTransitionMaterial::new(3, 4, 1500, 77);
    assert_eq!(
        material,
        MenuTransitionMaterial { mask: 3, previous_image: 4, startup: 77, duration: 1500 }
    );
}

#[test]
fn at_most_one_material_per_transition() {
    let mut m = TransitionMachine::<GameState>::new();
    assert!(m.idle_step(vec![request(GameState::InGame, 1000, 1)], true));
    assert!(m.create_material_step(Some(9), 100).is_some());
    // Further polls of the capture slot build nothing more.
    assert!(m.create_material_step(Some(10), 200).is_none());
    assert_eq!(m.state, TransitionState::LoadingMaskAndScreenshot);
    assert_eq!(m.pending.as_ref().unwrap().screenshot, Some(9));
}

#[test]
fn unloaded_mask_stalls_the_machine() {
    let mut m = TransitionMachine::<GameState>::new();
    assert!(m.idle_step(vec![request(GameState::InGame, 1000, 1)], true));
    assert!(m.create_material_step(Some(9), 0).is_some());
    assert_eq!(m.state, TransitionState::LoadingMaskAndScreenshot);

    // Whatever the asset system reports short of "loaded" — including a
    // failed load — the machine keeps waiting, cycle after cycle.
    for _ in 0..100 {
        assert!(m.wait_for_assets_step(LoadState::NotLoaded).is_none());
        assert!(m.wait_for_assets_step(LoadState::Loading).is_none());
        assert!(m.wait_for_assets_step(LoadState::Failed).is_none());
        assert_eq!(m.state, TransitionState::LoadingMaskAndScreenshot);
        assert!(m.pending.is_some());
    }
}

#[test]
fn timer_finishes_exactly_at_accumulated_duration() {
    let mut timer = DespawnTimer::new(1000);
    assert!(!timer.finished());
    assert!(!timer.tick(999));
    assert!(!timer.finished());
    assert!(timer.tick(1));
    assert!(timer.finished());
    // A finished countdown stays finished.
    assert!(timer.tick(0));
    assert!(timer.finished());
}

#[test]
fn timer_overshoot_caps_at_duration() {
    let mut timer = DespawnTimer::new(300);
    assert!(timer.tick(u64::MAX));
    assert_eq!(timer.elapsed, 300);
    assert!(timer.finished());
}

#[test]
fn zero_duration_overlay_expires_on_first_tick() {
    let mut timer = DespawnTimer::new(0);
    assert!(timer.tick(0));
    assert!(timer.finished());
}

#[test]
fn despawn_sweep_changes_nothing_outside_a_transition() {
    let mut m = TransitionMachine::<GameState>::new();
    m.despawn_step(true);
    assert_eq!(m.state, TransitionState::Idle);

    assert!(m.idle_step(vec![request(GameState::InGame, 1000, 1)], true));
    m.despawn_step(true);
    assert_eq!(m.state, TransitionState::TakingScreenshot);
}

#[test]
fn capture_poll_outside_capture_phase_is_a_no_op() {
    let mut m = TransitionMachine::<GameState>::new();
    assert!(m.create_material_step(Some(9), 0).is_none());
    assert_eq!(m.state, TransitionState::Idle);
    assert!(m.pending.is_none());
}

#[test]
fn default_transition_state_is_idle() {
    assert_eq!(TransitionState::default(), TransitionState::Idle);
}
