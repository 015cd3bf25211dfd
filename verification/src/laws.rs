//! Properties that relate several operations of the library: how the API's
//! validation agrees with the game loop's parsing, what the session commands
//! undo and keep, and how the advertised spaces match the data sent.

use vstd::prelude::*;
use crate::action::{
    lemma_layout_matches_component_names, spec_action_from_index, spec_action_layout, spec_direction, GridDirection,
    RLAction,
};
use crate::api::{spec_check_grpc_step_action, spec_check_step_action, spec_observation_shape, GrpcAction, StepAction};
use crate::config::{
    spec_component_names, spec_config_api_name, spec_config_for_level, spec_config_name, spec_continuous_from_lowercase, spec_dimension,
    spec_level_from_number, spec_level_number, spec_next_level, spec_observation_mode_from_lowercase,
    spec_observation_size, ActionSpaceType, ContinuousActionConfig, GameConfig, Level, ObservationMode,
};
use crate::environment::{
    spec_action_space_from_name, spec_configure, spec_end_training, spec_fresh_episode,
    spec_keyboard_level_change, spec_keyboard_reset, spec_reset, spec_set_level, spec_start_training,
    ConfigureOutcome, ControlMode, EnvSession, GameState,
};
use crate::image::{cell, disc_drawn, in_disc, spec_channels, PixelColor};
use crate::observation::{
    lemma_slots_index, lemma_slots_len, observation_for_mode, player_part, projectile_slots,
    standard_observation, MAX_PROJECTILES,
};
use crate::text::{digit_char, lowercase};
use crate::validation::{first_configure_error, is_action_space_name};

verus! {

/// Level 2 follows level 1 and level 1 follows level 2, so two level changes
/// return to the starting level; a level is found again from its number.
pub proof fn lemma_level_cycle(l: Level)
    ensures
        spec_next_level(spec_next_level(l)) == l,
        spec_next_level(l) != l,
        spec_level_from_number(spec_level_number(l) as int) == Some(l),
{
}

/// The level numbers that `validate_level` accepts are exactly those that the
/// game loop turns into a level (`Level::from_number`).
pub proof fn lemma_level_validation_agrees(n: int)
    ensures
        (1 <= n <= 2) <==> spec_level_from_number(n) is Some,
{
}

/// The action space names that `validate_action_space_type` accepts are
/// exactly those that the game loop turns into an action space.
pub proof fn lemma_action_space_validation_agrees(s: Seq<char>)
    ensures
        is_action_space_name(s) <==> spec_action_space_from_name(s) is Some,
{
}

/// The API name of every continuous configuration parses back to the same
/// configuration.
pub proof fn lemma_api_name_roundtrip(c: ContinuousActionConfig)
    ensures
        spec_continuous_from_lowercase(spec_config_api_name(c)) == Some(c),
{
    reveal_strlit("basic3d");
    reveal_strlit("basic_3d");
    reveal_strlit("3d");
    reveal_strlit("basic4d");
    reveal_strlit("basic_4d");
    reveal_strlit("jump4d");
    reveal_strlit("4d_jump");
    reveal_strlit("basic_4d_jump");
    reveal_strlit("tilt5d");
    reveal_strlit("tilt_5d");
    reveal_strlit("5d");
    reveal_strlit("full6d");
    reveal_strlit("full_6d");
    reveal_strlit("6d");
    let names = seq![
        "basic3d"@, "basic_3d"@, "3d"@, "basic4d"@, "basic_4d"@, "jump4d"@, "4d_jump"@,
        "tilt5d"@, "tilt_5d"@, "5d"@, "full6d"@, "full_6d"@, "6d"@,
    ];
    assert(names[0][0] == 'b' && names[1][0] == 'b' && names[2][0] == '3');
    assert(names[3][0] == 'b' && names[4][0] == 'b' && names[5][0] == 'j' && names[6][0] == '4');
    assert(names[7][0] == 't' && names[8][0] == 't' && names[9][0] == '5');
    assert(names[10][0] == 'f' && names[11][0] == 'f' && names[12][0] == '6');
    assert(names[0].len() == 7 && names[1].len() == 8 && names[3].len() == 7 && names[4].len() == 8);
    assert(names[7].len() == 6 && names[8].len() == 7 && names[10].len() == 6 && names[11].len() == 7);
}

/// Only the image mode has no observation vector, and exactly the image mode
/// has an image shape.
pub proof fn lemma_observation_modes(m: ObservationMode)
    ensures
        spec_observation_size(m) == 0 <==> m == ObservationMode::TopDownImage,
        spec_observation_size(m) == 65 || spec_observation_size(m) == 69 || spec_observation_size(m) == 0,
{
}

/// A reset begins an episode that is neither done (no collision) nor
/// truncated for any positive step limit, under agent control, with the level
/// and configuration kept.
pub proof fn lemma_reset_starts_episode(s: EnvSession, max_steps: u32)
    requires
        max_steps > 0,
    ensures
        !spec_reset(s).game_state.is_game_over,
        !(spec_reset(s).env_state.episode_steps >= max_steps),
        spec_reset(s).control_mode == ControlMode::RLAgent,
        spec_reset(s).level == s.level,
        spec_reset(s).config == s.config,
        spec_reset(s).training_mode == s.training_mode,
{
}

/// Resetting twice is resetting once.
pub proof fn lemma_reset_idempotent(s: EnvSession)
    ensures
        spec_reset(spec_reset(s)) == spec_reset(s),
{
}

/// Ending training undoes starting it: start then end is the same as end,
/// and leaves everything but the training and control modes as it was.
pub proof fn lemma_training_round_trip(s: EnvSession)
    ensures
        spec_end_training(spec_start_training(s)) == spec_end_training(s),
        spec_end_training(s).level == s.level,
        spec_end_training(s).config == s.config,
        spec_end_training(s).game_state == s.game_state,
        spec_end_training(s).env_state == s.env_state,
{
}

/// While training, the R and L keys change nothing.
pub proof fn lemma_keyboard_ignored_in_training(s: EnvSession)
    requires
        s.training_mode.enabled,
    ensures
        spec_keyboard_reset(s) == s,
        spec_keyboard_level_change(s) == s,
{
}

/// Outside training, pressing L twice returns to the starting level with
/// that level's configuration, and the game is no longer over.
pub proof fn lemma_level_key_twice(s: EnvSession)
    requires
        !s.training_mode.enabled,
    ensures
        spec_keyboard_level_change(spec_keyboard_level_change(s)).level == s.level,
        spec_keyboard_level_change(spec_keyboard_level_change(s)).config == spec_config_for_level(s.level),
        !spec_keyboard_level_change(spec_keyboard_level_change(s)).game_state.is_game_over,
        spec_keyboard_level_change(spec_keyboard_level_change(s)).env_state == s.env_state,
{
}

/// Setting the same level twice is setting it once; a number other than 1
/// or 2 changes nothing.
pub proof fn lemma_set_level_idempotent(s: EnvSession, n: int)
    ensures
        spec_set_level(spec_set_level(s, n), n) == spec_set_level(s, n),
        spec_level_from_number(n) is None ==> spec_set_level(s, n) == s,
{
}

/// A configure command that names only a valid level does what a set-level
/// command with that level does, and reports the level as loaded.
pub proof fn lemma_configure_level_only(s: EnvSession, n: u8)
    requires
        spec_level_from_number(n as int) is Some,
    ensures
        spec_configure(s, Some(n), None, None, None, None, None).0 == spec_set_level(s, n as int),
        spec_configure(s, Some(n), None, None, None, None, None).1 == (ConfigureOutcome {
            level_loaded: spec_level_from_number(n as int),
            apply_motion_overrides: true,
            apply_thrower_delay: true,
            completed: true,
        }),
{
}

/// An empty configure command only begins a fresh episode.
pub proof fn lemma_configure_nothing(s: EnvSession)
    ensures
        spec_configure(s, None, None, None, None, None, None).0 == spec_fresh_episode(s),
        spec_configure(s, None, None, None, None, None, None).1.completed,
        spec_configure(s, None, None, None, None, None, None).1.level_loaded is None,
{
}

/// A configure command with an unknown observation mode name changes neither
/// the observation mode nor the episode.
pub proof fn lemma_configure_bad_mode(
    s: EnvSession,
    level: Option<u8>,
    action_space_type: Option<Seq<char>>,
    mode: Seq<char>,
    w: Option<u32>,
    h: Option<u32>,
    g: Option<bool>,
)
    requires
        spec_observation_mode_from_lowercase(lowercase(mode)) is None,
    ensures
        spec_configure(s, level, action_space_type, Some(mode), w, h, g).0.config.observation_mode
            == (match level {
            Some(n) => match spec_level_from_number(n as int) {
                Some(l) => spec_config_for_level(l).observation_mode,
                None => s.config.observation_mode,
            },
            None => s.config.observation_mode,
        }),
        spec_configure(s, level, action_space_type, Some(mode), w, h, g).0.game_state == s.game_state,
        spec_configure(s, level, action_space_type, Some(mode), w, h, g).0.env_state == s.env_state,
        !spec_configure(s, level, action_space_type, Some(mode), w, h, g).1.completed,
{
}

/// The observation space advertised for a vector mode has the length of the
/// observations that are sent in that mode.
pub proof fn lemma_observation_shape_matches<T>(
    config: GameConfig,
    player: Option<[T; 5]>,
    projectiles: Seq<[T; 6]>,
    thrower: Option<[T; 4]>,
    zero: T,
)
    requires
        config.observation_mode != ObservationMode::TopDownImage,
    ensures
        spec_observation_shape(config).len() == 1,
        spec_observation_shape(config)[0] == observation_for_mode(
            config.observation_mode,
            player,
            projectiles,
            thrower,
            zero,
        ).len(),
{
    lemma_slots_len(projectiles, zero, MAX_PROJECTILES as nat);
}

/// Where each value sits in an observation: player value `pi` at `pi`, then
/// value `c` of projectile `k` at `5 + 6 * k + c` (zero for a missing
/// projectile), then, in the extended mode, thrower value `ti` at `65 + ti`.
pub proof fn lemma_observation_layout<T>(
    player: Option<[T; 5]>,
    projectiles: Seq<[T; 6]>,
    thrower: Option<[T; 4]>,
    zero: T,
    pi: int,
    k: int,
    c: int,
    ti: int,
)
    requires
        0 <= pi < 5,
        0 <= k < 10,
        0 <= c < 6,
        0 <= ti < 4,
    ensures
        standard_observation(player, projectiles, zero)[pi] == (match player {
            Some(p) => p@[pi],
            None => zero,
        }),
        standard_observation(player, projectiles, zero)[5 + 6 * k + c] == (if k < projectiles.len() {
            projectiles[k]@[c]
        } else {
            zero
        }),
        observation_for_mode(ObservationMode::WithThrowerIndicator, player, projectiles, thrower, zero)[65
            + ti] == (match thrower {
            Some(t) => t@[ti],
            None => zero,
        }),
{
    lemma_slots_len(projectiles, zero, MAX_PROJECTILES as nat);
    lemma_slots_index(projectiles, zero, MAX_PROJECTILES as nat, k, c);
    assert(player_part(player, zero).len() == 5);
    assert(standard_observation(player, projectiles, zero)[5 + 6 * k + c] == projectile_slots(
        projectiles,
        zero,
        MAX_PROJECTILES as nat,
    )[6 * k + c]);
}

/// The advertised continuous action space has one component per control in
/// the layout: the box shape is the dimension, and the layout reads only
/// components inside it.
pub proof fn lemma_action_space_matches_layout(c: ContinuousActionConfig)
    ensures
        spec_action_layout(c).sprint < spec_dimension(c),
        spec_action_layout(c).jump matches Some(j) ==> j < spec_dimension(c),
        spec_action_layout(c).pitch matches Some(p) ==> p < spec_dimension(c),
        spec_action_layout(c).roll matches Some(q) ==> q < spec_dimension(c),
        spec_dimension(c) >= 3,
{
}

/// Drawing the same disc twice gives the same image as drawing it once.
pub proof fn lemma_disc_idempotent(
    s0: Seq<u8>,
    s1: Seq<u8>,
    s2: Seq<u8>,
    w: int,
    h: int,
    cx: int,
    cy: int,
    r: int,
    color: PixelColor,
    grayscale: bool,
)
    requires
        disc_drawn(s1, s0, w, h, cx, cy, r, color, grayscale),
        disc_drawn(s2, s1, w, h, cx, cy, r, color, grayscale),
    ensures
        disc_drawn(s2, s0, w, h, cx, cy, r, color, grayscale),
{
    assert forall|px: int, py: int, c: int|
        0 <= px < w && 0 <= py < h && 0 <= c < spec_channels(grayscale) && crate::image::offset(
            grayscale,
            crate::image::pixel_index(w, px, py),
        ) + c < s0.len() implies #[trigger] cell(s2, grayscale, w, px, py, c) == (if crate::image::in_disc(
        cx,
        cy,
        r,
        px,
        py,
    ) && crate::image::fits(s0.len() as int, grayscale, crate::image::pixel_index(w, px, py)) {
        crate::image::component(color, grayscale, c)
    } else {
        cell(s0, grayscale, w, px, py, c)
    }) by {
        assert(cell(s1, grayscale, w, px, py, c) == cell(s1, grayscale, w, px, py, c));
    }
}

/// In the discrete action space the HTTP and the gRPC servers take the same
/// actions and refuse the others with the same message, for every action that
/// both can carry (0 to `i32::MAX`).
pub proof fn lemma_step_checks_agree(action: u64, array_len: Option<usize>)
    requires
        action <= i32::MAX,
    ensures
        spec_check_step_action(ActionSpaceType::Discrete, Some(action), array_len)
            == spec_check_grpc_step_action(ActionSpaceType::Discrete, Some(GrpcAction::Discrete(action as i32))),
{
}

/// A configure request that passes the servers' validation is applied in full
/// by the game loop: the level, action space and observation mode it names are
/// loaded, the physical overrides are applied, and a fresh episode begins.
pub proof fn lemma_valid_configure_completes(
    s: EnvSession,
    level: Option<u8>,
    action_space_type: Option<Seq<char>>,
    observation_mode: Option<Seq<char>>,
    image_obs_width: Option<u32>,
    image_obs_height: Option<u32>,
    image_grayscale: Option<bool>,
)
    requires
        first_configure_error(
            match level {
                Some(n) => Some(n as i32),
                None => None,
            },
            action_space_type,
            None,
            None,
            observation_mode,
            None,
            image_obs_width,
            image_obs_height,
        ) is None,
    ensures
        ({
            let (t, o) = spec_configure(
                s,
                level,
                action_space_type,
                observation_mode,
                image_obs_width,
                image_obs_height,
                image_grayscale,
            );
            &&& o.completed && o.apply_motion_overrides && o.apply_thrower_delay
            &&& o.level_loaded == (match level {
                Some(n) => spec_level_from_number(n as int),
                None => None,
            })
            &&& level matches Some(n) ==> Some(t.level) == spec_level_from_number(n as int)
            &&& action_space_type matches Some(a) ==> Some(t.config.action_space_type)
                == spec_action_space_from_name(a)
            &&& observation_mode matches Some(m) ==> Some(t.config.observation_mode)
                == spec_observation_mode_from_lowercase(lowercase(m))
            &&& image_obs_width matches Some(w) ==> t.config.image_obs_width == w
            &&& image_obs_height matches Some(h) ==> t.config.image_obs_height == h
            &&& image_grayscale matches Some(g) ==> t.config.image_grayscale == g
            &&& t.game_state == GameState { is_game_over: false }
            &&& t.env_state.episode_steps == 0
        }),
{
    if let Some(a) = action_space_type {
        lemma_action_space_validation_agrees(a);
    }
}

/// The names joined with ", ", as a configuration's name lists them.
pub open spec fn joined(names: Seq<Seq<char>>) -> Seq<char>
    decreases names.len(),
{
    if names.len() == 0 {
        Seq::empty()
    } else if names.len() == 1 {
        names[0]
    } else {
        joined(names.drop_last()) + ", "@ + names.last()
    }
}

/// Whether `s` ends with `t`.
pub open spec fn ends_with(s: Seq<char>, t: Seq<char>) -> bool {
    t.len() <= s.len() && s.subrange(s.len() - t.len(), s.len() as int) == t
}

/// Whether the word `w` occurs in `s`.
pub open spec fn has_word(s: Seq<char>, w: Seq<char>) -> bool {
    exists|i: int| 0 <= i && i + w.len() <= s.len() && #[trigger] s.subrange(i, i + w.len()) == w
}

proof fn lemma_word_at(s: Seq<char>, w: Seq<char>, i: int)
    requires
        0 <= i,
        i + w.len() <= s.len(),
        s.subrange(i, i + w.len()) =~= w,
    ensures
        has_word(s, w),
{
}

proof fn lemma_word_needs_char(s: Seq<char>, w: Seq<char>, k: int)
    requires
        0 <= k < w.len(),
        !s.contains(w[k]),
    ensures
        !has_word(s, w),
{
    if has_word(s, w) {
        let i = choose|i: int| 0 <= i && i + w.len() <= s.len() && #[trigger] s.subrange(i, i + w.len()) == w;
        assert(s.subrange(i, i + w.len())[k] == s[i + k]);
        assert(s.contains(w[k]));
    }
}

/// A continuous configuration's human-readable name starts with its
/// dimension and ends with its components in wire order, "(vx, vy, ...)";
/// the layout reads each control from the position at which that name lists
/// it. So for the 5D configuration, "5D with Tilt (vx, vy, pitch, roll,
/// sprint)", pitch is component 2 and roll component 3.
pub proof fn lemma_layout_follows_config_name(c: ContinuousActionConfig)
    ensures
        spec_config_name(c)[0] == digit_char(spec_dimension(c)),
        ends_with(spec_config_name(c), "("@ + joined(spec_component_names(c)) + ")"@),
        spec_component_names(c)[spec_action_layout(c).sprint as int] == "sprint"@,
        spec_action_layout(c).jump matches Some(j) ==> spec_component_names(c)[j as int] == "jump"@,
        spec_action_layout(c).pitch matches Some(p) ==> spec_component_names(c)[p as int] == "pitch"@,
        spec_action_layout(c).roll matches Some(q) ==> spec_component_names(c)[q as int] == "roll"@,
        spec_action_layout(c).jump is None <==> !spec_component_names(c).contains("jump"@),
        spec_action_layout(c).pitch is None <==> !spec_component_names(c).contains("pitch"@),
{
    lemma_layout_matches_component_names(c);
    reveal_strlit("3D Basic (vx, vy, sprint)");
    reveal_strlit("4D with Jump (vx, vy, sprint, jump)");
    reveal_strlit("5D with Tilt (vx, vy, pitch, roll, sprint)");
    reveal_strlit("6D Full (vx, vy, jump, pitch, roll, sprint)");
    reveal_strlit("vx");
    reveal_strlit("vy");
    reveal_strlit("sprint");
    reveal_strlit("jump");
    reveal_strlit("pitch");
    reveal_strlit("roll");
    reveal_strlit(", ");
    reveal_strlit("(");
    reveal_strlit(")");
    reveal_with_fuel(joined, 7);
    let n = spec_component_names(c);
    let name = spec_config_name(c);
    let t = "("@ + joined(n) + ")"@;
    assert(name.subrange(name.len() - t.len(), name.len() as int) =~= t);
    assert("jump"@ != "vx"@ && "jump"@ != "vy"@ && "jump"@ != "sprint"@ && "jump"@ != "pitch"@
        && "jump"@ != "roll"@) by {
        assert("jump"@[0] != "vx"@[0] && "jump"@[0] != "sprint"@[0] && "jump"@[0] != "pitch"@[0]
            && "jump"@[0] != "roll"@[0]);
    }
    assert("pitch"@ != "vx"@ && "pitch"@ != "vy"@ && "pitch"@ != "sprint"@ && "pitch"@ != "jump"@
        && "pitch"@ != "roll"@) by {
        assert("pitch"@[0] != "vx"@[0] && "pitch"@[0] != "sprint"@[0] && "pitch"@[0] != "jump"@[0]
            && "pitch"@[0] != "roll"@[0]);
    }
    if spec_action_layout(c).jump is None {
        assert(!n.contains("jump"@)) by {
            if n.contains("jump"@) {
                let k = choose|k: int| 0 <= k < n.len() && n[k] == "jump"@;
                assert(n[k] == "jump"@);
            }
        }
    }
    if spec_action_layout(c).pitch is None {
        assert(!n.contains("pitch"@)) by {
            if n.contains("pitch"@) {
                let k = choose|k: int| 0 <= k < n.len() && n[k] == "pitch"@;
                assert(n[k] == "pitch"@);
            }
        }
    }
}

/// The levels differ only in difficulty: level 2 has 25 projectiles instead
/// of 10 and spawns them from random positions; everything else a client
/// sees (action space, observation mode, image size) is the same, and every
/// level starts with the standard 65-value observation and the default
/// continuous action space.
pub proof fn lemma_levels_differ_only_in_difficulty(l: Level)
    ensures
        spec_config_for_level(Level::Level2) == (GameConfig {
            max_projectiles: 25,
            random_spawn_position: true,
            ..spec_config_for_level(Level::Level1)
        }),
        spec_config_for_level(Level::Level1).max_projectiles == 10,
        !spec_config_for_level(Level::Level1).random_spawn_position,
        spec_config_for_level(l).observation_mode == ObservationMode::Standard,
        spec_observation_size(spec_config_for_level(l).observation_mode) == 65,
        spec_config_for_level(l).action_space_type == ActionSpaceType::Continuous(ContinuousActionConfig::Tilt5D),
        !spec_config_for_level(l).image_grayscale,
{
}

/// A continuous configuration's names carry its dimension: every name that
/// parses to configuration `c` contains the digit of `c`'s dimension ("3" for
/// the 3D one, ..., "6" for the 6D one), and so does its API name.
pub proof fn lemma_continuous_names_carry_dimension(s: Seq<char>, c: ContinuousActionConfig)
    ensures
        spec_continuous_from_lowercase(s) == Some(c) ==> s.contains(digit_char(spec_dimension(c))),
        spec_config_api_name(c).contains(digit_char(spec_dimension(c))),
{
    reveal_strlit("basic3d");
    reveal_strlit("basic_3d");
    reveal_strlit("3d");
    reveal_strlit("basic4d");
    reveal_strlit("basic_4d");
    reveal_strlit("jump4d");
    reveal_strlit("4d_jump");
    reveal_strlit("basic_4d_jump");
    reveal_strlit("tilt5d");
    reveal_strlit("tilt_5d");
    reveal_strlit("5d");
    reveal_strlit("full6d");
    reveal_strlit("full_6d");
    reveal_strlit("6d");
    if s == "basic3d"@ {
        assert(s[5] == '3');
    } else if s == "basic_3d"@ {
        assert(s[6] == '3');
    } else if s == "3d"@ {
        assert(s[0] == '3');
    } else if s == "basic4d"@ {
        assert(s[5] == '4');
    } else if s == "basic_4d"@ {
        assert(s[6] == '4');
    } else if s == "jump4d"@ {
        assert(s[4] == '4');
    } else if s == "4d_jump"@ {
        assert(s[0] == '4');
    } else if s == "basic_4d_jump"@ {
        assert(s[6] == '4');
    } else if s == "tilt5d"@ {
        assert(s[4] == '5');
    } else if s == "tilt_5d"@ {
        assert(s[5] == '5');
    } else if s == "5d"@ {
        assert(s[0] == '5');
    } else if s == "full6d"@ {
        assert(s[4] == '6');
    } else if s == "full_6d"@ {
        assert(s[5] == '6');
    } else if s == "6d"@ {
        assert(s[0] == '6');
    }
    let a = spec_config_api_name(c);
    match c {
        ContinuousActionConfig::Basic3D => assert(a[6] == '3'),
        ContinuousActionConfig::BasicWithJump4D => assert(a[6] == '4'),
        ContinuousActionConfig::Tilt5D => assert(a[5] == '5'),
        ContinuousActionConfig::Full6D => assert(a[5] == '6'),
    }
}

/// Each observation mode name denotes the mode it names: a name parses to the
/// thrower mode exactly when it contains "thrower", to the image mode exactly
/// when it contains "image" or "topdown", and otherwise to the standard mode.
pub proof fn lemma_observation_mode_names(s: Seq<char>)
    ensures
        spec_observation_mode_from_lowercase(s) is Some ==> {
            &&& (spec_observation_mode_from_lowercase(s) == Some(ObservationMode::WithThrowerIndicator)
                <==> has_word(s, "thrower"@))
            &&& (spec_observation_mode_from_lowercase(s) == Some(ObservationMode::TopDownImage)
                <==> (has_word(s, "image"@) || has_word(s, "topdown"@)))
        },
{
    if s == "standard"@ || s == "default"@ {
        lemma_standard_words(s);
    } else if s == "with_thrower"@ || s == "thrower"@ || s == "with_thrower_indicator"@ {
        lemma_thrower_words(s);
    } else if s == "topdown"@ || s == "topdown_image"@ || s == "image"@ {
        lemma_image_words(s);
    }
}

/// The standard mode's names contain none of "thrower", "image", "topdown".
proof fn lemma_standard_words(s: Seq<char>)
    requires
        s == "standard"@ || s == "default"@,
    ensures
        !has_word(s, "thrower"@),
        !has_word(s, "image"@),
        !has_word(s, "topdown"@),
{
    reveal_strlit("thrower");
    reveal_strlit("image");
    reveal_strlit("topdown");
    reveal_strlit("standard");
    reveal_strlit("default");
    lemma_word_needs_char(s, "thrower"@, 1);
    lemma_word_needs_char(s, "image"@, 3);
    lemma_word_needs_char(s, "topdown"@, 2);
}

/// The thrower mode's names contain "thrower" and neither "image" nor
/// "topdown".
proof fn lemma_thrower_words(s: Seq<char>)
    requires
        s == "with_thrower"@ || s == "thrower"@ || s == "with_thrower_indicator"@,
    ensures
        has_word(s, "thrower"@),
        !has_word(s, "image"@),
        !has_word(s, "topdown"@),
{
    if s == "thrower"@ {
        lemma_name_thrower(s);
        lemma_word_at(s, "thrower"@, 0);
    } else if s == "with_thrower"@ {
        lemma_name_with_thrower(s);
        lemma_word_at(s, "thrower"@, 5);
    } else {
        lemma_name_with_thrower_indicator(s);
        lemma_word_at(s, "thrower"@, 5);
    }
    lemma_word_needs_char(s, "image"@, 3);
    lemma_word_needs_char(s, "topdown"@, 2);
}

/// The characters of "thrower" as a name.
proof fn lemma_name_thrower(s: Seq<char>)
    requires
        s == "thrower"@,
    ensures
        s.len() == 7,
        s.subrange(0, 7) =~= "thrower"@,
        "image"@[3] == 'g' && !s.contains('g'),
        "topdown"@[2] == 'p' && !s.contains('p'),
        "image"@.len() == 5 && "topdown"@.len() == 7,
{
    reveal_strlit("thrower");
    reveal_strlit("image");
    reveal_strlit("topdown");
    assert(forall|i: int| 0 <= i < s.len() ==> s[i] != 'g' && s[i] != 'p');
}

/// The characters of "with_thrower".
proof fn lemma_name_with_thrower(s: Seq<char>)
    requires
        s == "with_thrower"@,
    ensures
        s.len() == 12,
        s.subrange(5, 12) =~= "thrower"@,
        "image"@[3] == 'g' && !s.contains('g'),
        "topdown"@[2] == 'p' && !s.contains('p'),
        "image"@.len() == 5 && "topdown"@.len() == 7 && "thrower"@.len() == 7,
{
    reveal_strlit("with_thrower");
    reveal_strlit("thrower");
    reveal_strlit("image");
    reveal_strlit("topdown");
    assert(forall|i: int| 0 <= i < s.len() ==> s[i] != 'g' && s[i] != 'p');
}

/// The characters of "with_thrower_indicator".
proof fn lemma_name_with_thrower_indicator(s: Seq<char>)
    requires
        s == "with_thrower_indicator"@,
    ensures
        s.len() == 22,
        "image"@[3] == 'g' && !s.contains('g'),
        "topdown"@[2] == 'p' && !s.contains('p'),
        "image"@.len() == 5 && "topdown"@.len() == 7 && "thrower"@.len() == 7,
        s.subrange(5, 12) =~= "thrower"@,
{
    reveal_strlit("with_thrower_indicator");
    reveal_strlit("thrower");
    reveal_strlit("image");
    reveal_strlit("topdown");
    assert(forall|i: int| 0 <= i < s.len() ==> s[i] != 'g' && s[i] != 'p');
}

/// The characters of the image mode's names.
proof fn lemma_name_image_mode(s: Seq<char>)
    requires
        s == "topdown"@ || s == "topdown_image"@ || s == "image"@,
    ensures
        "thrower"@[1] == 'h' && "thrower"@.len() == 7,
        !s.contains('h'),
        s == "image"@ ==> s.subrange(0, 5) =~= "image"@ && s.len() == 5,
        s != "image"@ ==> s.subrange(0, 7) =~= "topdown"@ && s.len() >= 7,
{
    reveal_strlit("thrower");
    reveal_strlit("topdown");
    reveal_strlit("topdown_image");
    reveal_strlit("image");
    assert(forall|i: int| 0 <= i < s.len() ==> s[i] != 'h');
}

/// The image mode's names contain "image" or "topdown" and not "thrower".
proof fn lemma_image_words(s: Seq<char>)
    requires
        s == "topdown"@ || s == "topdown_image"@ || s == "image"@,
    ensures
        !has_word(s, "thrower"@),
        has_word(s, "image"@) || has_word(s, "topdown"@),
{
    lemma_name_image_mode(s);
    if s == "image"@ {
        lemma_word_at(s, "image"@, 0);
    } else {
        lemma_word_at(s, "topdown"@, 0);
    }
    lemma_word_needs_char(s, "thrower"@, 1);
}

/// A discrete step action is accepted, over HTTP and over gRPC, exactly when
/// it is the index of one of the five actions, and it is forwarded unchanged;
/// a continuous action is accepted exactly when the action space is
/// continuous and the action has that configuration's number of components.
pub proof fn lemma_step_checks_accept_valid_actions(
    space: ActionSpaceType,
    a: u64,
    g: i32,
    n: usize,
)
    ensures
        (spec_check_step_action(ActionSpaceType::Discrete, Some(a), None) is Ok)
            <==> spec_action_from_index(a as nat) is Some,
        spec_check_step_action(ActionSpaceType::Discrete, Some(a), None) matches Ok(x)
            ==> x == StepAction::Discrete(a as usize),
        (spec_check_grpc_step_action(space, Some(GrpcAction::Discrete(g))) is Ok)
            <==> (0 <= g && spec_action_from_index(g as nat) is Some),
        spec_check_grpc_step_action(space, Some(GrpcAction::Discrete(g))) matches Ok(x)
            ==> x == StepAction::Discrete(g as usize),
        (spec_check_step_action(space, None, Some(n)) is Ok) <==> (space matches ActionSpaceType::Continuous(c)
            && n == spec_dimension(c)),
        (spec_check_grpc_step_action(space, Some(GrpcAction::Continuous(n))) is Ok) <==> (
        space matches ActionSpaceType::Continuous(c) && n == spec_dimension(c)),
        spec_check_step_action(space, None, Some(n)) matches Ok(x) ==> (space matches ActionSpaceType::Continuous(
            c,
        ) && x == StepAction::Continuous(c)),
        spec_check_grpc_step_action(space, Some(GrpcAction::Continuous(n))) matches Ok(x) ==> (
        space matches ActionSpaceType::Continuous(c) && x == StepAction::Continuous(c)),
{
}

/// The discrete moves go along the ground axes: Up is +y and Down -y, Right
/// is +x and Left -x, each one unit; opposite moves are opposite directions,
/// and only Noop stands still.
pub proof fn lemma_directions(a: RLAction)
    ensures
        spec_direction(RLAction::Up) == (GridDirection { x: 0, y: 1 }),
        spec_direction(RLAction::Right) == (GridDirection { x: 1, y: 0 }),
        spec_direction(RLAction::Down).x == -spec_direction(RLAction::Up).x,
        spec_direction(RLAction::Down).y == -spec_direction(RLAction::Up).y,
        spec_direction(RLAction::Left).x == -spec_direction(RLAction::Right).x,
        spec_direction(RLAction::Left).y == -spec_direction(RLAction::Right).y,
        (spec_direction(a) == GridDirection { x: 0, y: 0 }) <==> a == RLAction::Noop,
        a != RLAction::Noop ==> spec_direction(a).x * spec_direction(a).x + spec_direction(a).y
            * spec_direction(a).y == 1,
{
}

/// A pixel is covered by a disc of radius `r >= 0` exactly when its squared
/// distance from the center is at most `r * r`.
pub proof fn lemma_disc_is_euclidean(cx: int, cy: int, r: int, px: int, py: int)
    requires
        r >= 0,
    ensures
        in_disc(cx, cy, r, px, py) <==> (px - cx) * (px - cx) + (py - cy) * (py - cy) <= r * r,
{
    let dx = px - cx;
    let dy = py - cy;
    if dx * dx + dy * dy <= r * r {
        assert(dx * dx <= r * r && dy * dy <= r * r) by (nonlinear_arith)
            requires
                dx * dx + dy * dy <= r * r,
        ;
        assert(-r <= dx <= r && -r <= dy <= r) by (nonlinear_arith)
            requires
                dx * dx <= r * r,
                dy * dy <= r * r,
                r >= 0,
        ;
    }
}

} // verus!
