//! Episode bookkeeping of the RL environment: game-over state, control and
//! training modes, step counting, and the decisions taken on each command
//! that the API server forwards to the game loop.

use vstd::prelude::*;
use crate::action::{spec_action_from_index, RLAction};
use crate::config::{
    spec_config_for_level, spec_continuous_from_lowercase, spec_level_from_number, spec_next_level,
    spec_observation_mode_from_lowercase, ActionSpaceType, ContinuousActionConfig, GameConfig, Level,
    ObservationMode,
};
use crate::text::{lowercase, str_equals, to_lowercase};

verus! {

/// Whether the current episode has ended by a collision.
#[derive(Debug, Clone, Copy, PartialEq, Eq, Structural)]
pub struct GameState {
    pub is_game_over: bool,
}

impl GameState {
    /// Records a collision between the player and a projectile; returns
    /// whether this collision ended the game (it was not over before).
    pub fn register_collision(&mut self) -> (newly_over: bool)
        ensures
            final(self).is_game_over,
            newly_over == !old(self).is_game_over,
    {
        if !self.is_game_over {
            self.is_game_over = true;
            true
        } else {
            false
        }
    }
}

impl Default for GameState {
    fn default() -> (g: Self)
        ensures
            !g.is_game_over,
    {
        GameState { is_game_over: false }
    }
}

/// Who drives the player.
#[derive(Debug, Clone, Copy, PartialEq, Eq, Structural)]
pub enum ControlMode {
    /// Keyboard and mouse control
    Human,
    /// Control by an RL agent through the API
    RLAgent,
}

impl Default for ControlMode {
    fn default() -> (m: Self)
        ensures
            m == ControlMode::Human,
    {
        ControlMode::Human
    }
}

/// Training mode: while enabled, keyboard resets and level changes are ignored.
#[derive(Debug, Clone, Copy, PartialEq, Eq, Structural)]
pub struct TrainingMode {
    pub enabled: bool,
}

impl Default for TrainingMode {
    fn default() -> (t: Self)
        ensures
            !t.enabled,
    {
        TrainingMode { enabled: false }
    }
}

/// Step count of the current episode. The reward totals, which are real
/// numbers, are kept by the embedding game.
#[derive(Debug, Clone, Copy, PartialEq, Eq, Structural)]
pub struct RLEnvironmentState {
    pub episode_steps: u32,
}

impl Default for RLEnvironmentState {
    fn default() -> (e: Self)
        ensures
            e.episode_steps == 0,
    {
        RLEnvironmentState { episode_steps: 0 }
    }
}

/// Information returned with each step.
#[derive(Debug, Clone, Copy, PartialEq, Eq, Structural)]
pub struct StepInfo {
    pub episode_steps: u32,
    pub projectile_count: usize,
}

/// Whether the episode has terminated (collision).
pub fn is_episode_done(game_state: &GameState, env_state: &RLEnvironmentState) -> (done: bool)
    ensures
        done == game_state.is_game_over,
{
    if game_state.is_game_over {
        return true;
    }
    false
}

/// Whether the episode is truncated (the step limit is reached).
pub fn is_episode_truncated(env_state: &RLEnvironmentState, max_steps: u32) -> (t: bool)
    ensures
        t == (env_state.episode_steps >= max_steps),
{
    env_state.episode_steps >= max_steps
}

/// The information reported with a step.
pub fn create_step_info(env_state: &RLEnvironmentState, projectile_count: usize) -> (info: StepInfo)
    ensures
        info == (StepInfo { episode_steps: env_state.episode_steps, projectile_count }),
{
    StepInfo { episode_steps: env_state.episode_steps, projectile_count }
}

/// The action space that a client's name denotes: "discrete" in any letter
/// case, or a continuous variant.
pub open spec fn spec_action_space_from_name(s: Seq<char>) -> Option<ActionSpaceType> {
    if lowercase(s) == "discrete"@ {
        Some(ActionSpaceType::Discrete)
    } else {
        match spec_continuous_from_lowercase(lowercase(lowercase(s))) {
            Some(c) => Some(ActionSpaceType::Continuous(c)),
            None => None,
        }
    }
}

/// Parses an action space name sent by a client.
pub fn parse_action_space_type(s: &str) -> (r: Option<ActionSpaceType>)
    ensures
        r == spec_action_space_from_name(s@),
{
    let lower = to_lowercase(s);
    if str_equals(lower.as_str(), "discrete") {
        Some(ActionSpaceType::Discrete)
    } else {
        match ContinuousActionConfig::from_str(lower.as_str()) {
            Some(c) => Some(ActionSpaceType::Continuous(c)),
            None => None,
        }
    }
}

/// What the game loop does besides the state change made by
/// `EnvSession::configure`.
#[derive(Debug, Clone, Copy, PartialEq, Eq, Structural)]
pub struct ConfigureOutcome {
    /// A level was loaded: its physical tuning replaces the current one.
    pub level_loaded: Option<Level>,
    /// The sprint multiplier and spawn angle overrides are to be applied.
    pub apply_motion_overrides: bool,
    /// The thrower delay override is to be applied.
    pub apply_thrower_delay: bool,
    /// The whole command was applied: the episode was reset, and the player
    /// and projectiles are to be reset too.
    pub completed: bool,
}

/// The environment state that the game loop keeps between frames: level,
/// discrete configuration, episode state, control and training modes.
#[derive(Debug, Clone, Copy, PartialEq, Eq, Structural)]
pub struct EnvSession {
    pub level: Level,
    pub config: GameConfig,
    pub game_state: GameState,
    pub env_state: RLEnvironmentState,
    pub control_mode: ControlMode,
    pub training_mode: TrainingMode,
}

/// The session at program start.
pub open spec fn spec_initial_session() -> EnvSession {
    EnvSession {
        level: Level::Level1,
        config: spec_config_for_level(Level::Level1),
        game_state: GameState { is_game_over: false },
        env_state: RLEnvironmentState { episode_steps: 0 },
        control_mode: ControlMode::Human,
        training_mode: TrainingMode { enabled: false },
    }
}

/// The session after a start-training command.
pub open spec fn spec_start_training(s: EnvSession) -> EnvSession {
    EnvSession { training_mode: TrainingMode { enabled: true }, ..s }
}

/// The session after an end-training command.
pub open spec fn spec_end_training(s: EnvSession) -> EnvSession {
    EnvSession { training_mode: TrainingMode { enabled: false }, control_mode: ControlMode::Human, ..s }
}

/// The session after the R key.
pub open spec fn spec_keyboard_reset(s: EnvSession) -> EnvSession {
    if s.training_mode.enabled {
        s
    } else {
        EnvSession { game_state: GameState { is_game_over: false }, ..s }
    }
}

/// The session after the L key.
pub open spec fn spec_keyboard_level_change(s: EnvSession) -> EnvSession {
    if s.training_mode.enabled {
        s
    } else {
        EnvSession {
            game_state: GameState { is_game_over: false },
            ..spec_load_level(s, spec_next_level(s.level))
        }
    }
}

/// `s` with a fresh episode: not game over and no steps taken.
pub open spec fn spec_fresh_episode(s: EnvSession) -> EnvSession {
    EnvSession {
        game_state: GameState { is_game_over: false },
        env_state: RLEnvironmentState { episode_steps: 0 },
        ..s
    }
}

/// `s` with level `l` and its configuration loaded.
pub open spec fn spec_load_level(s: EnvSession, l: Level) -> EnvSession {
    EnvSession { level: l, config: spec_config_for_level(l), ..s }
}

/// The session after a reset command: agent control, fresh episode.
pub open spec fn spec_reset(s: EnvSession) -> EnvSession {
    EnvSession { control_mode: ControlMode::RLAgent, ..spec_fresh_episode(s) }
}

/// The session after a set-level command with level number `n`.
pub open spec fn spec_set_level(s: EnvSession, n: int) -> EnvSession {
    match spec_level_from_number(n) {
        Some(l) => spec_fresh_episode(spec_load_level(s, l)),
        None => s,
    }
}

/// The outcome of a configure command that stopped early.
pub open spec fn spec_stopped(loaded: Option<Level>, motion: bool) -> ConfigureOutcome {
    ConfigureOutcome {
        level_loaded: loaded,
        apply_motion_overrides: motion,
        apply_thrower_delay: false,
        completed: false,
    }
}

/// The session and outcome after a configure command.
pub open spec fn spec_configure(
    s: EnvSession,
    level: Option<u8>,
    action_space_type: Option<Seq<char>>,
    observation_mode: Option<Seq<char>>,
    image_obs_width: Option<u32>,
    image_obs_height: Option<u32>,
    image_grayscale: Option<bool>,
) -> (EnvSession, ConfigureOutcome) {
    match level {
        Some(n) => match spec_level_from_number(n as int) {
            Some(l) => spec_configure_spaces(
                spec_load_level(s, l),
                Some(l),
                action_space_type,
                observation_mode,
                image_obs_width,
                image_obs_height,
                image_grayscale,
            ),
            None => (s, spec_stopped(None, false)),
        },
        None => spec_configure_spaces(
            s,
            None,
            action_space_type,
            observation_mode,
            image_obs_width,
            image_obs_height,
            image_grayscale,
        ),
    }
}

/// The configure command from its action space field on.
pub open spec fn spec_configure_spaces(
    s: EnvSession,
    loaded: Option<Level>,
    action_space_type: Option<Seq<char>>,
    observation_mode: Option<Seq<char>>,
    image_obs_width: Option<u32>,
    image_obs_height: Option<u32>,
    image_grayscale: Option<bool>,
) -> (EnvSession, ConfigureOutcome) {
    match action_space_type {
        Some(a) => match spec_action_space_from_name(a) {
            Some(t) => spec_configure_observation(
                EnvSession { config: GameConfig { action_space_type: t, ..s.config }, ..s },
                loaded,
                observation_mode,
                image_obs_width,
                image_obs_height,
                image_grayscale,
            ),
            None => (s, spec_stopped(loaded, false)),
        },
        None => spec_configure_observation(
            s,
            loaded,
            observation_mode,
            image_obs_width,
            image_obs_height,
            image_grayscale,
        ),
    }
}

/// The configure command from its observation mode field on.
pub open spec fn spec_configure_observation(
    s: EnvSession,
    loaded: Option<Level>,
    observation_mode: Option<Seq<char>>,
    image_obs_width: Option<u32>,
    image_obs_height: Option<u32>,
    image_grayscale: Option<bool>,
) -> (EnvSession, ConfigureOutcome) {
    match observation_mode {
        Some(o) => match spec_observation_mode_from_lowercase(lowercase(o)) {
            Some(m) => spec_configure_image(
                EnvSession { config: GameConfig { observation_mode: m, ..s.config }, ..s },
                loaded,
                image_obs_width,
                image_obs_height,
                image_grayscale,
            ),
            None => (s, spec_stopped(loaded, true)),
        },
        None => spec_configure_image(s, loaded, image_obs_width, image_obs_height, image_grayscale),
    }
}

/// The configure command from its image fields on: they are stored and a
/// fresh episode begins.
pub open spec fn spec_configure_image(
    s: EnvSession,
    loaded: Option<Level>,
    image_obs_width: Option<u32>,
    image_obs_height: Option<u32>,
    image_grayscale: Option<bool>,
) -> (EnvSession, ConfigureOutcome) {
    let c = GameConfig {
        image_obs_width: match image_obs_width {
            Some(w) => w,
            None => s.config.image_obs_width,
        },
        image_obs_height: match image_obs_height {
            Some(h) => h,
            None => s.config.image_obs_height,
        },
        image_grayscale: match image_grayscale {
            Some(g) => g,
            None => s.config.image_grayscale,
        },
        ..s.config
    };
    (
        spec_fresh_episode(EnvSession { config: c, ..s }),
        ConfigureOutcome {
            level_loaded: loaded,
            apply_motion_overrides: true,
            apply_thrower_delay: true,
            completed: true,
        },
    )
}

/// The text of an optional string slice.
pub open spec fn opt_view(s: Option<&str>) -> Option<Seq<char>> {
    match s {
        Some(a) => Some(a@),
        None => None,
    }
}

impl EnvSession {
    /// The session at program start: level 1, human control, no training.
    pub fn new() -> (s: Self)
        ensures
            s == spec_initial_session(),
    {
        EnvSession {
            level: Level::default(),
            config: GameConfig::default(),
            game_state: GameState::default(),
            env_state: RLEnvironmentState::default(),
            control_mode: ControlMode::default(),
            training_mode: TrainingMode::default(),
        }
    }

    /// Start-training command: keyboard resets and level changes are
    /// disabled from now on.
    pub fn start_training(&mut self)
        ensures
            *final(self) == spec_start_training(*old(self)),
    {
        self.training_mode.enabled = true;
    }

    /// End-training command: training mode off, control back to the human.
    pub fn end_training(&mut self)
        ensures
            *final(self) == spec_end_training(*old(self)),
    {
        self.training_mode.enabled = false;
        self.control_mode = ControlMode::Human;
    }

    /// Set-level command with level number `level_num`. A number other than 1
    /// or 2 is ignored (`None`, nothing changes); otherwise the level and its
    /// configuration are loaded and a fresh episode begins.
    pub fn set_level(&mut self, level_num: u8) -> (l: Option<Level>)
        ensures
            l == spec_level_from_number(level_num as int),
            *final(self) == spec_set_level(*old(self), level_num as int),
    {
        match Level::from_number(level_num) {
            Some(new_level) => {
                self.level = new_level;
                self.config = GameConfig::for_level(new_level);
                self.game_state.is_game_over = false;
                self.env_state.episode_steps = 0;
                Some(new_level)
            },
            None => None,
        }
    }

    /// Reset command: the agent takes control and a fresh episode begins.
    pub fn reset(&mut self)
        ensures
            *final(self) == spec_reset(*old(self)),
    {
        self.control_mode = ControlMode::RLAgent;
        self.game_state.is_game_over = false;
        self.env_state.episode_steps = 0;
    }

    /// A step command was processed: the episode advances by one step.
    pub fn record_step(&mut self)
        requires
            old(self).env_state.episode_steps < u32::MAX,
        ensures
            *final(self) == (EnvSession {
                env_state: RLEnvironmentState { episode_steps: (old(self).env_state.episode_steps + 1) as u32 },
                ..*old(self)
            }),
    {
        self.env_state.episode_steps = self.env_state.episode_steps + 1;
    }

    /// Discrete step command with action index `action`: returns the action
    /// to apply to the player (none for an index outside 0..5); the episode
    /// advances by one step either way.
    pub fn step_discrete(&mut self, action: usize) -> (a: Option<RLAction>)
        requires
            old(self).env_state.episode_steps < u32::MAX,
        ensures
            a == spec_action_from_index(action as nat),
            *final(self) == (EnvSession {
                env_state: RLEnvironmentState { episode_steps: (old(self).env_state.episode_steps + 1) as u32 },
                ..*old(self)
            }),
    {
        let parsed = match RLAction::from_index(action) {
            Ok(a) => Some(a),
            Err(_) => None,
        };
        self.record_step();
        parsed
    }

    /// Configure command. Fields are taken in order; a level number other
    /// than 1 or 2, or an unknown action space or observation mode name, stops
    /// the command where it stands. The outcome tells the game loop which
    /// physical settings to apply and whether the episode was reset.
    pub fn configure(
        &mut self,
        level: Option<u8>,
        action_space_type: Option<&str>,
        observation_mode: Option<&str>,
        image_obs_width: Option<u32>,
        image_obs_height: Option<u32>,
        image_grayscale: Option<bool>,
    ) -> (o: ConfigureOutcome)
        ensures
            (*final(self), o) == spec_configure(
                *old(self),
                level,
                opt_view(action_space_type),
                opt_view(observation_mode),
                image_obs_width,
                image_obs_height,
                image_grayscale,
            ),
    {
        match level {
            Some(n) => match Level::from_number(n) {
                Some(new_level) => {
                    self.level = new_level;
                    self.config = GameConfig::for_level(new_level);
                    self.configure_spaces(
                        Some(new_level),
                        action_space_type,
                        observation_mode,
                        image_obs_width,
                        image_obs_height,
                        image_grayscale,
                    )
                },
                None => ConfigureOutcome {
                    level_loaded: None,
                    apply_motion_overrides: false,
                    apply_thrower_delay: false,
                    completed: false,
                },
            },
            None => self.configure_spaces(
                None,
                action_space_type,
                observation_mode,
                image_obs_width,
                image_obs_height,
                image_grayscale,
            ),
        }
    }

    fn configure_spaces(
        &mut self,
        loaded: Option<Level>,
        action_space_type: Option<&str>,
        observation_mode: Option<&str>,
        image_obs_width: Option<u32>,
        image_obs_height: Option<u32>,
        image_grayscale: Option<bool>,
    ) -> (o: ConfigureOutcome)
        ensures
            (*final(self), o) == spec_configure_spaces(
                *old(self),
                loaded,
                opt_view(action_space_type),
                opt_view(observation_mode),
                image_obs_width,
                image_obs_height,
                image_grayscale,
            ),
    {
        match action_space_type {
            Some(name) => match parse_action_space_type(name) {
                Some(t) => {
                    self.config.action_space_type = t;
                    self.configure_observation(
                        loaded,
                        observation_mode,
                        image_obs_width,
                        image_obs_height,
                        image_grayscale,
                    )
                },
                None => ConfigureOutcome {
                    level_loaded: loaded,
                    apply_motion_overrides: false,
                    apply_thrower_delay: false,
                    completed: false,
                },
            },
            None => self.configure_observation(
                loaded,
                observation_mode,
                image_obs_width,
                image_obs_height,
                image_grayscale,
            ),
        }
    }

    fn configure_observation(
        &mut self,
        loaded: Option<Level>,
        observation_mode: Option<&str>,
        image_obs_width: Option<u32>,
        image_obs_height: Option<u32>,
        image_grayscale: Option<bool>,
    ) -> (o: ConfigureOutcome)
        ensures
            (*final(self), o) == spec_configure_observation(
                *old(self),
                loaded,
                opt_view(observation_mode),
                image_obs_width,
                image_obs_height,
                image_grayscale,
            ),
    {
        match observation_mode {
            Some(name) => match ObservationMode::from_str(name) {
                Some(m) => {
                    self.config.observation_mode = m;
                    self.configure_image(loaded, image_obs_width, image_obs_height, image_grayscale)
                },
                None => ConfigureOutcome {
                    level_loaded: loaded,
                    apply_motion_overrides: true,
                    apply_thrower_delay: false,
                    completed: false,
                },
            },
            None => self.configure_image(loaded, image_obs_width, image_obs_height, image_grayscale),
        }
    }

    fn configure_image(
        &mut self,
        loaded: Option<Level>,
        image_obs_width: Option<u32>,
        image_obs_height: Option<u32>,
        image_grayscale: Option<bool>,
    ) -> (o: ConfigureOutcome)
        ensures
            (*final(self), o) == spec_configure_image(
                *old(self),
                loaded,
                image_obs_width,
                image_obs_height,
                image_grayscale,
            ),
    {
        if let Some(w) = image_obs_width {
            self.config.image_obs_width = w;
        }
        if let Some(h) = image_obs_height {
            self.config.image_obs_height = h;
        }
        if let Some(g) = image_grayscale {
            self.config.image_grayscale = g;
        }
        self.game_state.is_game_over = false;
        self.env_state.episode_steps = 0;
        ConfigureOutcome {
            level_loaded: loaded,
            apply_motion_overrides: true,
            apply_thrower_delay: true,
            completed: true,
        }
    }

    /// The R key: outside training mode, the game-over state is cleared
    /// (returns true, the caller then resets the player); during training
    /// nothing happens.
    pub fn keyboard_reset(&mut self) -> (done: bool)
        ensures
            done == !old(self).training_mode.enabled,
            *final(self) == spec_keyboard_reset(*old(self)),
    {
        if !self.training_mode.enabled {
            self.game_state.is_game_over = false;
            true
        } else {
            false
        }
    }

    /// The L key: outside training mode, the next level and its configuration
    /// are loaded and the game-over state is cleared; during training nothing
    /// happens (`None`).
    pub fn keyboard_level_change(&mut self) -> (l: Option<Level>)
        ensures
            l == (if old(self).training_mode.enabled {
                None
            } else {
                Some(spec_next_level(old(self).level))
            }),
            *final(self) == spec_keyboard_level_change(*old(self)),
    {
        if !self.training_mode.enabled {
            let next = self.level.next();
            self.level = next;
            self.config = GameConfig::for_level(next);
            self.game_state.is_game_over = false;
            Some(next)
        } else {
            None
        }
    }
}

} // verus!
