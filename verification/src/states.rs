//! The states of the game and the timers that move it from one to the next.

use vstd::prelude::*;
use crate::fixed::clamp_u32;

verus! {

/// The main game states.
#[derive(Debug, Clone, Copy, PartialEq, Eq, Hash, Structural)]
pub enum GameState {
    /// Loading assets.
    Loading,
    /// Main menu.
    MainMenu,
    /// Quest selection screen.
    QuestSelect,
    /// Actively playing.
    Playing,
    /// Game is paused.
    Paused,
    /// Perk selection screen, on level up.
    PerkSelect,
    /// Game over screen.
    GameOver,
    /// Victory screen.
    Victory,
}

impl Default for GameState {
    fn default() -> (r: Self)
        ensures
            r == GameState::Loading,
    {
        GameState::Loading
    }
}

/// Sub-states of the playing state.
#[derive(Debug, Clone, Copy, PartialEq, Eq, Hash, Structural)]
pub enum PlayingState {
    /// Normal gameplay.
    Active,
    /// Transitioning between waves.
    WaveTransition,
    /// Boss encounter.
    BossEncounter,
}

impl Default for PlayingState {
    fn default() -> (r: Self)
        ensures
            r == PlayingState::Active,
    {
        PlayingState::Active
    }
}

/// The state after the pause key: playing pauses, a pause ends, and every
/// other state stays.
pub open spec fn after_pause_key(state: GameState) -> GameState {
    match state {
        GameState::Playing => GameState::Paused,
        GameState::Paused => GameState::Playing,
        other => other,
    }
}

/// The state after the pause key was pressed, or not.
pub fn handle_pause_input(state: GameState, escape_pressed: bool) -> (r: GameState)
    ensures
        r == if escape_pressed {
            after_pause_key(state)
        } else {
            state
        },
{
    if !escape_pressed {
        return state;
    }
    match state {
        GameState::Playing => GameState::Paused,
        GameState::Paused => GameState::Playing,
        other => other,
    }
}

/// Progress of loading.
#[derive(Debug, Clone, Copy, PartialEq, Eq, Structural)]
pub struct LoadingState {
    /// Whether the assets are loaded.
    pub assets_loaded: bool,
    /// Whether the configuration is loaded.
    pub config_loaded: bool,
    /// Frames waited so far.
    pub frames_waited: u32,
}

impl Default for LoadingState {
    fn default() -> (r: Self)
        ensures
            r == (LoadingState { assets_loaded: false, config_loaded: false, frames_waited: 0 }),
    {
        LoadingState { assets_loaded: false, config_loaded: false, frames_waited: 0 }
    }
}

impl LoadingState {
    /// Whether all loading is complete.
    pub open spec fn spec_is_complete(self) -> bool {
        self.assets_loaded && self.config_loaded
    }

    /// The state after one more frame: the assets count as loaded from the
    /// second frame, the configuration from the third.
    pub open spec fn after_frame(self) -> LoadingState {
        let frames = clamp_u32(self.frames_waited + 1) as u32;
        LoadingState {
            assets_loaded: self.assets_loaded || frames >= 2,
            config_loaded: self.config_loaded || frames >= 3,
            frames_waited: frames,
        }
    }

    /// Whether all loading is complete.
    pub fn is_complete(&self) -> (r: bool)
        ensures
            r == self.spec_is_complete(),
    {
        self.assets_loaded && self.config_loaded
    }

    /// Marks the assets as loaded.
    pub fn mark_assets_loaded(&mut self)
        ensures
            *final(self) == (LoadingState { assets_loaded: true, ..*old(self) }),
    {
        self.assets_loaded = true;
    }

    /// Marks the configuration as loaded.
    pub fn mark_config_loaded(&mut self)
        ensures
            *final(self) == (LoadingState { config_loaded: true, ..*old(self) }),
    {
        self.config_loaded = true;
    }

    /// Starts loading anew.
    pub fn start_loading(&mut self)
        ensures
            *final(self) == (LoadingState {
                assets_loaded: false,
                config_loaded: false,
                frames_waited: 0,
            }),
    {
        self.assets_loaded = false;
        self.config_loaded = false;
        self.frames_waited = 0;
    }

    /// Counts a frame; returns the state to move on to once loading is
    /// complete.
    pub fn check_loading_complete(&mut self) -> (r: Option<GameState>)
        ensures
            *final(self) == old(self).after_frame(),
            r == if final(self).spec_is_complete() {
                Some(GameState::MainMenu)
            } else {
                None
            },
    {
        self.frames_waited = self.frames_waited.saturating_add(1);
        if self.frames_waited >= 2 && !self.assets_loaded {
            self.mark_assets_loaded();
        }
        if self.frames_waited >= 3 && !self.config_loaded {
            self.mark_config_loaded();
        }
        if self.is_complete() {
            Some(GameState::MainMenu)
        } else {
            None
        }
    }
}

/// How long the transition between two waves lasts, in milliseconds.
pub const TRANSITION_DURATION: u32 = 3000;

/// How long the introduction of a boss lasts, in milliseconds.
pub const INTRO_DURATION: u32 = 2000;

/// The transition between two waves.
#[derive(Debug, Clone, Copy, PartialEq, Eq, Structural)]
pub struct WaveTransitionState {
    /// Time the transition has lasted, in milliseconds.
    pub timer: u32,
    /// Number of the next wave.
    pub next_wave: u32,
    /// Whether the transition is complete.
    pub complete: bool,
}

impl Default for WaveTransitionState {
    fn default() -> (r: Self)
        ensures
            r == (WaveTransitionState { timer: 0, next_wave: 0, complete: false }),
    {
        WaveTransitionState { timer: 0, next_wave: 0, complete: false }
    }
}

impl WaveTransitionState {
    /// The transition after `dt` milliseconds: complete once it has lasted
    /// its duration.
    pub open spec fn after_tick(self, dt: u32) -> WaveTransitionState {
        WaveTransitionState {
            timer: clamp_u32(self.timer + dt) as u32,
            complete: self.complete || self.timer + dt >= TRANSITION_DURATION,
            ..self
        }
    }

    /// Lets `dt` milliseconds pass; returns the state to move on to in the
    /// tick in which the transition becomes complete.
    pub fn update(&mut self, dt: u32) -> (r: Option<PlayingState>)
        ensures
            *final(self) == old(self).after_tick(dt),
            r == if !old(self).complete && final(self).complete {
                Some(PlayingState::Active)
            } else {
                None
            },
    {
        self.timer = self.timer.saturating_add(dt);
        if self.timer >= TRANSITION_DURATION && !self.complete {
            self.complete = true;
            Some(PlayingState::Active)
        } else {
            None
        }
    }
}

/// Starts the transition to the wave with the number.
pub fn trigger_wave_transition(wave_number: u32) -> (r: (WaveTransitionState, PlayingState))
    ensures
        r.0 == (WaveTransitionState { timer: 0, next_wave: wave_number, complete: false }),
        r.1 == PlayingState::WaveTransition,
{
    (
        WaveTransitionState { timer: 0, next_wave: wave_number, complete: false },
        PlayingState::WaveTransition,
    )
}

/// A boss encounter that is about to begin.
#[derive(Debug, Clone)]
pub struct PendingBossEncounter {
    pub boss_name: String,
}

/// A boss encounter: the name of the boss, and the introduction with the
/// time it has lasted.
#[derive(Debug, Clone)]
pub struct BossEncounterState {
    /// Name of the boss for display.
    pub boss_name: String,
    /// Whether the introduction has played.
    pub intro_complete: bool,
    /// Time the introduction has lasted, in milliseconds.
    pub intro_timer: u32,
}

impl Default for BossEncounterState {
    fn default() -> (r: Self)
        ensures
            r.boss_name@ == "Unknown Boss"@,
            !r.intro_complete,
            r.intro_timer == 0,
    {
        BossEncounterState { boss_name: "Unknown Boss".to_owned(), intro_complete: false, intro_timer: 0 }
    }
}

impl BossEncounterState {
    /// Whether the next `dt` milliseconds complete the introduction.
    pub open spec fn completes(&self, dt: u32) -> bool {
        !self.intro_complete && self.intro_timer + dt >= INTRO_DURATION
    }

    /// Lets `dt` milliseconds pass on the introduction; once it has lasted
    /// its duration it is complete, and its timer is back at zero.
    pub fn update(&mut self, dt: u32)
        ensures
            final(self).boss_name@ == old(self).boss_name@,
            final(self).intro_complete == (old(self).intro_complete || old(self).completes(dt)),
            final(self).intro_timer == if old(self).intro_complete {
                old(self).intro_timer
            } else if old(self).completes(dt) {
                0
            } else {
                (old(self).intro_timer + dt) as u32
            },
    {
        if !self.intro_complete {
            self.intro_timer = self.intro_timer.saturating_add(dt);
            if self.intro_timer >= INTRO_DURATION {
                self.intro_complete = true;
                self.intro_timer = 0;
            }
        }
    }
}

/// Announces a boss encounter.
pub fn trigger_boss_encounter(boss_name: &str) -> (r: (PendingBossEncounter, PlayingState))
    ensures
        r.0.boss_name@ == boss_name@,
        r.1 == PlayingState::BossEncounter,
{
    (PendingBossEncounter { boss_name: boss_name.to_owned() }, PlayingState::BossEncounter)
}

/// Begins a boss encounter with the boss that was announced, or with an
/// unknown boss where none was.
pub fn on_boss_encounter_enter(pending: Option<PendingBossEncounter>) -> (r: BossEncounterState)
    ensures
        r.boss_name@ == match pending {
            Some(p) => p.boss_name@,
            None => "Unknown Boss"@,
        },
        !r.intro_complete,
        r.intro_timer == 0,
{
    match pending {
        Some(p) => BossEncounterState { boss_name: p.boss_name, intro_complete: false, intro_timer: 0 },
        None => BossEncounterState::default(),
    }
}

} // verus!
