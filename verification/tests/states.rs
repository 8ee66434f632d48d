use crimsonland::states::{
    handle_pause_input, on_boss_encounter_enter, trigger_boss_encounter, trigger_wave_transition,
    BossEncounterState, GameState, LoadingState, PlayingState, WaveTransitionState,
};

#[test]
fn game_state_default_is_loading() {
    assert_eq!(GameState::default(), GameState::Loading);
}

#[test]
fn playing_state_default_is_active() {
    assert_eq!(PlayingState::default(), PlayingState::Active);
}

#[test]
fn loading_state_tracks_progress() {
    let mut state = LoadingState::default();
    assert!(!state.is_complete());

    state.mark_assets_loaded();
    assert!(!state.is_complete());

    state.mark_config_loaded();
    assert!(state.is_complete());
}

#[test]
fn wave_transition_state_defaults() {
    let state = WaveTransitionState::default();
    assert_eq!(state.timer, 0);
    assert!(!state.complete);
}

#[test]
fn game_states_are_distinct() {
    let states = [
        GameState::Loading,
        GameState::MainMenu,
        GameState::QuestSelect,
        GameState::Playing,
        GameState::Paused,
        GameState::PerkSelect,
        GameState::GameOver,
        GameState::Victory,
    ];

    for (i, a) in states.iter().enumerate() {
        for (j, b) in states.iter().enumerate() {
            if i == j {
                assert_eq!(a, b);
            } else {
                assert_ne!(a, b);
            }
        }
    }
}

#[test]
fn loading_takes_three_frames() {
    let mut state = LoadingState { assets_loaded: true, config_loaded: true, frames_waited: 9 };
    state.start_loading();
    assert_eq!(state, LoadingState::default());
    assert_eq!(state.check_loading_complete(), None);
    assert!(!state.assets_loaded);
    assert_eq!(state.check_loading_complete(), None);
    assert!(state.assets_loaded && !state.config_loaded);
    assert_eq!(state.check_loading_complete(), Some(GameState::MainMenu));
    assert_eq!(state.frames_waited, 3);
    assert_eq!(state.check_loading_complete(), Some(GameState::MainMenu));
    state.frames_waited = u32::MAX;
    assert_eq!(state.check_loading_complete(), Some(GameState::MainMenu));
    assert_eq!(state.frames_waited, u32::MAX);
}

#[test]
fn pause_key_toggles_between_playing_and_paused() {
    assert_eq!(handle_pause_input(GameState::Playing, true), GameState::Paused);
    assert_eq!(handle_pause_input(GameState::Paused, true), GameState::Playing);
    assert_eq!(handle_pause_input(GameState::Playing, false), GameState::Playing);
    assert_eq!(handle_pause_input(GameState::MainMenu, true), GameState::MainMenu);
    assert_eq!(handle_pause_input(GameState::GameOver, true), GameState::GameOver);
}

#[test]
fn wave_transition_completes_once() {
    let (mut transition, state) = trigger_wave_transition(4);
    assert_eq!(state, PlayingState::WaveTransition);
    assert_eq!(transition, WaveTransitionState { timer: 0, next_wave: 4, complete: false });
    assert_eq!(transition.update(2999), None);
    assert_eq!(transition.update(1), Some(PlayingState::Active));
    assert!(transition.complete);
    assert_eq!(transition.update(5000), None);
    assert_eq!(transition.timer, 8000);
    assert_eq!(transition.next_wave, 4);
}

#[test]
fn boss_intro_keeps_its_own_timer() {
    let (pending, state) = trigger_boss_encounter("Alien Overlord");
    assert_eq!(state, PlayingState::BossEncounter);
    let mut first = on_boss_encounter_enter(Some(pending));
    let mut second = on_boss_encounter_enter(None);
    assert_eq!(first.boss_name, "Alien Overlord");
    assert_eq!(second.boss_name, "Unknown Boss");
    first.update(1500);
    second.update(600);
    assert_eq!((first.intro_timer, second.intro_timer), (1500, 600));
    assert!(!first.intro_complete && !second.intro_complete);
    first.update(500);
    assert!(first.intro_complete);
    assert_eq!(first.intro_timer, 0);
    assert!(!second.intro_complete);
    second.update(1399);
    assert!(!second.intro_complete);
    second.update(1);
    assert!(second.intro_complete);
    first.update(9000);
    assert_eq!(first.intro_timer, 0);
    assert!(first.intro_complete);
    let fresh = BossEncounterState::default();
    assert_eq!(fresh.boss_name, "Unknown Boss");
    assert!(!fresh.intro_complete);
}
