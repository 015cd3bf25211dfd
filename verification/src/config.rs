//! Game configuration: action space variants, observation modes, difficulty
//! levels and the discrete (non-physical) part of the game configuration.

use vstd::prelude::*;
use vstd::string::*;
use crate::text::{lowercase, str_equals, to_lowercase};

verus! {

/// Continuous action space configurations.
#[derive(Debug, Clone, Copy, PartialEq, Eq, Structural)]
pub enum ContinuousActionConfig {
    /// 3D: [vx, vy, sprint] - basic movement with sprint
    Basic3D,
    /// 4D: [vx, vy, sprint, jump] - basic movement plus jump control
    BasicWithJump4D,
    /// 5D: [vx, vy, pitch, roll, sprint] - movement with tilt and sprint
    Tilt5D,
    /// 6D: [vx, vy, jump, pitch, roll, sprint] - full control
    Full6D,
}

/// Number of components of a continuous action of configuration `c`.
pub open spec fn spec_dimension(c: ContinuousActionConfig) -> nat {
    match c {
        ContinuousActionConfig::Basic3D => 3,
        ContinuousActionConfig::BasicWithJump4D => 4,
        ContinuousActionConfig::Tilt5D => 5,
        ContinuousActionConfig::Full6D => 6,
    }
}

/// Names of the components of configuration `c`, in wire order.
pub open spec fn spec_component_names(c: ContinuousActionConfig) -> Seq<Seq<char>> {
    match c {
        ContinuousActionConfig::Basic3D => seq!["vx"@, "vy"@, "sprint"@],
        ContinuousActionConfig::BasicWithJump4D => seq!["vx"@, "vy"@, "sprint"@, "jump"@],
        ContinuousActionConfig::Tilt5D => seq!["vx"@, "vy"@, "pitch"@, "roll"@, "sprint"@],
        ContinuousActionConfig::Full6D => seq!["vx"@, "vy"@, "jump"@, "pitch"@, "roll"@, "sprint"@],
    }
}

/// Human-readable name of configuration `c`.
pub open spec fn spec_config_name(c: ContinuousActionConfig) -> Seq<char> {
    match c {
        ContinuousActionConfig::Basic3D => "3D Basic (vx, vy, sprint)"@,
        ContinuousActionConfig::BasicWithJump4D => "4D with Jump (vx, vy, sprint, jump)"@,
        ContinuousActionConfig::Tilt5D => "5D with Tilt (vx, vy, pitch, roll, sprint)"@,
        ContinuousActionConfig::Full6D => "6D Full (vx, vy, jump, pitch, roll, sprint)"@,
    }
}

/// The API name of configuration `c`.
pub open spec fn spec_config_api_name(c: ContinuousActionConfig) -> Seq<char> {
    match c {
        ContinuousActionConfig::Basic3D => "basic_3d"@,
        ContinuousActionConfig::BasicWithJump4D => "basic_4d_jump"@,
        ContinuousActionConfig::Tilt5D => "tilt_5d"@,
        ContinuousActionConfig::Full6D => "full_6d"@,
    }
}

/// The configuration that an already lowercased name denotes, if any.
pub open spec fn spec_continuous_from_lowercase(s: Seq<char>) -> Option<ContinuousActionConfig> {
    if s == "basic3d"@ || s == "basic_3d"@ || s == "3d"@ {
        Some(ContinuousActionConfig::Basic3D)
    } else if s == "basic4d"@ || s == "basic_4d"@ || s == "jump4d"@ || s == "4d_jump"@ || s == "basic_4d_jump"@ {
        Some(ContinuousActionConfig::BasicWithJump4D)
    } else if s == "tilt5d"@ || s == "tilt_5d"@ || s == "5d"@ {
        Some(ContinuousActionConfig::Tilt5D)
    } else if s == "full6d"@ || s == "full_6d"@ || s == "6d"@ {
        Some(ContinuousActionConfig::Full6D)
    } else {
        None
    }
}

impl ContinuousActionConfig {
    /// Dimension of the action space.
    pub fn dimension(&self) -> (d: usize)
        ensures
            d == spec_dimension(*self),
    {
        match self {
            ContinuousActionConfig::Basic3D => 3,
            ContinuousActionConfig::BasicWithJump4D => 4,
            ContinuousActionConfig::Tilt5D => 5,
            ContinuousActionConfig::Full6D => 6,
        }
    }

    /// Human-readable name.
    pub fn name(&self) -> (s: &'static str)
        ensures
            s@ == spec_config_name(*self),
    {
        match self {
            ContinuousActionConfig::Basic3D => "3D Basic (vx, vy, sprint)",
            ContinuousActionConfig::BasicWithJump4D => "4D with Jump (vx, vy, sprint, jump)",
            ContinuousActionConfig::Tilt5D => "5D with Tilt (vx, vy, pitch, roll, sprint)",
            ContinuousActionConfig::Full6D => "6D Full (vx, vy, jump, pitch, roll, sprint)",
        }
    }

    /// Component names, for messages about individual components.
    pub fn component_names(&self) -> (v: Vec<&'static str>)
        ensures
            v@.map_values(|s: &'static str| s@) == spec_component_names(*self),
    {
        let v = match self {
            ContinuousActionConfig::Basic3D => vec!["vx", "vy", "sprint"],
            ContinuousActionConfig::BasicWithJump4D => vec!["vx", "vy", "sprint", "jump"],
            ContinuousActionConfig::Tilt5D => vec!["vx", "vy", "pitch", "roll", "sprint"],
            ContinuousActionConfig::Full6D => vec!["vx", "vy", "jump", "pitch", "roll", "sprint"],
        };
        assert(v@.map_values(|s: &'static str| s@) =~= spec_component_names(*self));
        v
    }

    /// Parses a name that is already in lowercase.
    pub fn from_lowercase(s: &str) -> (r: Option<Self>)
        ensures
            r == spec_continuous_from_lowercase(s@),
    {
        if str_equals(s, "basic3d") || str_equals(s, "basic_3d") || str_equals(s, "3d") {
            Some(ContinuousActionConfig::Basic3D)
        } else if str_equals(s, "basic4d") || str_equals(s, "basic_4d") || str_equals(s, "jump4d")
            || str_equals(s, "4d_jump") || str_equals(s, "basic_4d_jump") {
            Some(ContinuousActionConfig::BasicWithJump4D)
        } else if str_equals(s, "tilt5d") || str_equals(s, "tilt_5d") || str_equals(s, "5d") {
            Some(ContinuousActionConfig::Tilt5D)
        } else if str_equals(s, "full6d") || str_equals(s, "full_6d") || str_equals(s, "6d") {
            Some(ContinuousActionConfig::Full6D)
        } else {
            None
        }
    }

    /// Parses a name sent by a client, ignoring letter case.
    pub fn from_str(s: &str) -> (r: Option<Self>)
        ensures
            r == spec_continuous_from_lowercase(lowercase(s@)),
    {
        let lower = to_lowercase(s);
        Self::from_lowercase(lower.as_str())
    }

    /// The API name of this configuration.
    pub fn to_string(&self) -> (s: &'static str)
        ensures
            s@ == spec_config_api_name(*self),
    {
        match self {
            ContinuousActionConfig::Basic3D => "basic_3d",
            ContinuousActionConfig::BasicWithJump4D => "basic_4d_jump",
            ContinuousActionConfig::Tilt5D => "tilt_5d",
            ContinuousActionConfig::Full6D => "full_6d",
        }
    }
}

impl Default for ContinuousActionConfig {
    fn default() -> (c: Self)
        ensures
            c == ContinuousActionConfig::Tilt5D,
    {
        ContinuousActionConfig::Tilt5D
    }
}


/// Action space types for RL training.
#[derive(Debug, Clone, Copy, PartialEq, Eq, Structural)]
pub enum ActionSpaceType {
    /// Discrete action space: 5 actions (NOOP, Up, Down, Left, Right)
    Discrete,
    /// Continuous action space with configurable dimensions
    Continuous(ContinuousActionConfig),
}

impl Default for ActionSpaceType {
    fn default() -> (t: Self)
        ensures
            t == ActionSpaceType::Discrete,
    {
        ActionSpaceType::Discrete
    }
}

/// Observation space modes for RL training.
#[derive(Debug, Clone, Copy, PartialEq, Eq, Structural)]
pub enum ObservationMode {
    /// Standard 65-value vector
    Standard,
    /// Extended 69-value vector with thrower indicator information
    WithThrowerIndicator,
    /// Top-down rendered image
    TopDownImage,
}

/// Default image observation width in pixels.
pub const IMAGE_OBS_WIDTH: u32 = 256;
/// Default image observation height in pixels.
pub const IMAGE_OBS_HEIGHT: u32 = 256;
/// Default image observation channel count (RGB).
pub const IMAGE_OBS_CHANNELS: u32 = 3;

/// The observation mode that an already lowercased name denotes, if any.
pub open spec fn spec_observation_mode_from_lowercase(s: Seq<char>) -> Option<ObservationMode> {
    if s == "standard"@ || s == "default"@ {
        Some(ObservationMode::Standard)
    } else if s == "with_thrower"@ || s == "thrower"@ || s == "with_thrower_indicator"@ {
        Some(ObservationMode::WithThrowerIndicator)
    } else if s == "topdown"@ || s == "topdown_image"@ || s == "image"@ {
        Some(ObservationMode::TopDownImage)
    } else {
        None
    }
}

/// Length of the observation vector in mode `m` (0 for the image mode).
pub open spec fn spec_observation_size(m: ObservationMode) -> nat {
    match m {
        ObservationMode::Standard => 65,
        ObservationMode::WithThrowerIndicator => 69,
        ObservationMode::TopDownImage => 0,
    }
}

impl ObservationMode {
    /// Parses a name that is already in lowercase.
    pub fn from_lowercase(s: &str) -> (r: Option<Self>)
        ensures
            r == spec_observation_mode_from_lowercase(s@),
    {
        if str_equals(s, "standard") || str_equals(s, "default") {
            Some(ObservationMode::Standard)
        } else if str_equals(s, "with_thrower") || str_equals(s, "thrower")
            || str_equals(s, "with_thrower_indicator") {
            Some(ObservationMode::WithThrowerIndicator)
        } else if str_equals(s, "topdown") || str_equals(s, "topdown_image") || str_equals(s, "image") {
            Some(ObservationMode::TopDownImage)
        } else {
            None
        }
    }

    /// Parses a name sent by a client, ignoring letter case.
    pub fn from_str(s: &str) -> (r: Option<Self>)
        ensures
            r == spec_observation_mode_from_lowercase(lowercase(s@)),
    {
        let lower = to_lowercase(s);
        Self::from_lowercase(lower.as_str())
    }

    /// Whether this mode uses image observations.
    pub fn is_image_mode(&self) -> (b: bool)
        ensures
            b == (*self == ObservationMode::TopDownImage),
    {
        match self {
            ObservationMode::TopDownImage => true,
            _ => false,
        }
    }

    /// Length of the observation vector (0 for the image mode).
    pub fn observation_size(&self) -> (n: usize)
        ensures
            n == spec_observation_size(*self),
    {
        match self {
            ObservationMode::Standard => 65,
            ObservationMode::WithThrowerIndicator => 69,
            ObservationMode::TopDownImage => 0,
        }
    }

    /// Default image shape (width, height, channels) for the image mode.
    pub fn image_shape(&self) -> (r: Option<(u32, u32, u32)>)
        ensures
            r == (if *self == ObservationMode::TopDownImage {
                Some((IMAGE_OBS_WIDTH, IMAGE_OBS_HEIGHT, IMAGE_OBS_CHANNELS))
            } else {
                None::<(u32, u32, u32)>
            }),
    {
        match self {
            ObservationMode::TopDownImage => Some((IMAGE_OBS_WIDTH, IMAGE_OBS_HEIGHT, IMAGE_OBS_CHANNELS)),
            _ => None,
        }
    }
}

impl Default for ObservationMode {
    fn default() -> (m: Self)
        ensures
            m == ObservationMode::Standard,
    {
        ObservationMode::Standard
    }
}

/// Game difficulty levels.
#[derive(Debug, Clone, Copy, PartialEq, Eq, Structural)]
pub enum Level {
    /// Original difficulty, the baseline for model evaluation
    Level1,
    /// Harder difficulty: faster projectiles, shorter spawn interval
    Level2,
}

/// The level that follows `l` (the cycle returns to level 1 after level 2).
pub open spec fn spec_next_level(l: Level) -> Level {
    match l {
        Level::Level1 => Level::Level2,
        Level::Level2 => Level::Level1,
    }
}

/// The display number of level `l`.
pub open spec fn spec_level_number(l: Level) -> nat {
    match l {
        Level::Level1 => 1,
        Level::Level2 => 2,
    }
}

/// The level with display number `n`, if any.
pub open spec fn spec_level_from_number(n: int) -> Option<Level> {
    if n == 1 {
        Some(Level::Level1)
    } else if n == 2 {
        Some(Level::Level2)
    } else {
        None
    }
}

impl Level {
    /// The next level (cycles back to level 1 after level 2).
    pub fn next(self) -> (l: Self)
        ensures
            l == spec_next_level(self),
    {
        match self {
            Level::Level1 => Level::Level2,
            Level::Level2 => Level::Level1,
        }
    }

    /// Level number for display.
    pub fn number(self) -> (n: u8)
        ensures
            n == spec_level_number(self),
    {
        match self {
            Level::Level1 => 1,
            Level::Level2 => 2,
        }
    }

    /// Level name for display.
    pub fn name(self) -> (s: &'static str)
        ensures
            s@ == (match self {
                Level::Level1 => "Level 1 (Baseline)"@,
                Level::Level2 => "Level 2 (Hard)"@,
            }),
    {
        match self {
            Level::Level1 => "Level 1 (Baseline)",
            Level::Level2 => "Level 2 (Hard)",
        }
    }

    /// The level that a level number sent by a client denotes (1 or 2).
    pub fn from_number(n: u8) -> (l: Option<Self>)
        ensures
            l == spec_level_from_number(n as int),
    {
        match n {
            1 => Some(Level::Level1),
            2 => Some(Level::Level2),
            _ => None,
        }
    }
}

impl Default for Level {
    fn default() -> (l: Self)
        ensures
            l == Level::Level1,
    {
        Level::Level1
    }
}

/// The discrete part of the game configuration: projectile count, spawn
/// pattern, action and observation spaces and the image observation size.
/// The physical tuning values (speeds, intervals, angles) are real numbers
/// and are kept by the embedding game.
#[derive(Debug, Clone, Copy, PartialEq, Eq, Structural)]
pub struct GameConfig {
    pub max_projectiles: usize,
    /// If true, projectiles spawn from random positions on a circle
    pub random_spawn_position: bool,
    pub action_space_type: ActionSpaceType,
    pub observation_mode: ObservationMode,
    pub image_obs_width: u32,
    pub image_obs_height: u32,
    /// If true, images have 1 channel instead of 3
    pub image_grayscale: bool,
}

/// The discrete configuration of level `l`.
pub open spec fn spec_config_for_level(l: Level) -> GameConfig {
    GameConfig {
        max_projectiles: if l == Level::Level1 { 10 } else { 25 },
        random_spawn_position: l == Level::Level2,
        action_space_type: ActionSpaceType::Continuous(ContinuousActionConfig::Tilt5D),
        observation_mode: ObservationMode::Standard,
        image_obs_width: IMAGE_OBS_WIDTH,
        image_obs_height: IMAGE_OBS_HEIGHT,
        image_grayscale: false,
    }
}

/// Number of image channels for the grayscale setting `grayscale`.
pub open spec fn spec_image_channels(grayscale: bool) -> u32 {
    if grayscale { 1 } else { 3 }
}

impl GameConfig {
    /// Number of image channels: 1 for grayscale, 3 for RGB.
    pub fn image_channels(&self) -> (c: u32)
        ensures
            c == spec_image_channels(self.image_grayscale),
    {
        if self.image_grayscale { 1 } else { 3 }
    }

    /// Configuration for a level.
    pub fn for_level(level: Level) -> (c: Self)
        ensures
            c == spec_config_for_level(level),
    {
        match level {
            Level::Level1 => Self::level1(),
            Level::Level2 => Self::level2(),
        }
    }

    /// Level 1: the original baseline difficulty.
    fn level1() -> (c: Self)
        ensures
            c == spec_config_for_level(Level::Level1),
    {
        GameConfig {
            max_projectiles: 10,
            random_spawn_position: false,
            action_space_type: ActionSpaceType::Continuous(ContinuousActionConfig::default()),
            observation_mode: ObservationMode::default(),
            image_obs_width: IMAGE_OBS_WIDTH,
            image_obs_height: IMAGE_OBS_HEIGHT,
            image_grayscale: false,
        }
    }

    /// Level 2: more projectiles, spawned from random positions in a fan.
    fn level2() -> (c: Self)
        ensures
            c == spec_config_for_level(Level::Level2),
    {
        GameConfig {
            max_projectiles: 25,
            random_spawn_position: true,
            action_space_type: ActionSpaceType::Continuous(ContinuousActionConfig::default()),
            observation_mode: ObservationMode::default(),
            image_obs_width: IMAGE_OBS_WIDTH,
            image_obs_height: IMAGE_OBS_HEIGHT,
            image_grayscale: false,
        }
    }
}

impl Default for GameConfig {
    fn default() -> (c: Self)
        ensures
            c == spec_config_for_level(Level::Level1),
    {
        Self::level1()
    }
}

/// Address of the HTTP API server.
#[derive(Debug, Clone)]
pub struct ApiConfig {
    pub host: String,
    pub port: u16,
}

impl Default for ApiConfig {
    fn default() -> (c: Self)
        ensures
            c.host@ == "127.0.0.1"@,
            c.port == 8000,
    {
        ApiConfig { host: String::from_str("127.0.0.1"), port: 8000 }
    }
}

} // verus!
