use dodge_rl::validation::validate_configure;
use dodge_rl::action::RLAction;
use dodge_rl::config::{ActionSpaceType, ContinuousActionConfig, GameConfig, Level, ObservationMode};
use dodge_rl::environment::{
    create_step_info, is_episode_done, is_episode_truncated, parse_action_space_type, ConfigureOutcome,
    ControlMode, EnvSession, GameState, RLEnvironmentState, StepInfo,
};

#[test]
fn episode_done_and_truncated() {
    let env = RLEnvironmentState { episode_steps: 1000 };
    assert!(is_episode_done(&GameState { is_game_over: true }, &env));
    assert!(!is_episode_done(&GameState { is_game_over: false }, &env));
    assert!(is_episode_truncated(&env, 1000));
    assert!(!is_episode_truncated(&RLEnvironmentState { episode_steps: 999 }, 1000));
    assert_eq!(create_step_info(&env, 3), StepInfo { episode_steps: 1000, projectile_count: 3 });
}

#[test]
fn collision_ends_game_once() {
    let mut g = GameState::default();
    assert!(g.register_collision());
    assert!(g.is_game_over);
    assert!(!g.register_collision());
    assert!(g.is_game_over);
}

#[test]
fn reset_begins_agent_episode() {
    let mut s = EnvSession::new();
    s.game_state.is_game_over = true;
    s.env_state.episode_steps = 42;
    s.reset();
    assert_eq!(s.control_mode, ControlMode::RLAgent);
    assert!(!s.game_state.is_game_over);
    assert_eq!(s.env_state.episode_steps, 0);
    assert!(!is_episode_done(&s.game_state, &s.env_state));
    assert!(!is_episode_truncated(&s.env_state, 1000));
}

#[test]
fn steps_are_counted() {
    let mut s = EnvSession::new();
    s.reset();
    assert_eq!(s.step_discrete(4), Some(RLAction::Right));
    assert_eq!(s.step_discrete(9), None);
    s.record_step();
    assert_eq!(s.env_state.episode_steps, 3);
}

#[test]
fn training_mode_round_trip() {
    let mut s = EnvSession::new();
    s.reset();
    s.start_training();
    assert!(s.training_mode.enabled);
    assert!(!s.keyboard_reset());
    assert_eq!(s.keyboard_level_change(), None);
    assert_eq!(s.level, Level::Level1);
    s.end_training();
    assert!(!s.training_mode.enabled);
    assert_eq!(s.control_mode, ControlMode::Human);
}

#[test]
fn keyboard_level_change_cycles() {
    let mut s = EnvSession::new();
    s.game_state.is_game_over = true;
    assert_eq!(s.keyboard_level_change(), Some(Level::Level2));
    assert_eq!(s.config, GameConfig::for_level(Level::Level2));
    assert!(!s.game_state.is_game_over);
    assert_eq!(s.keyboard_level_change(), Some(Level::Level1));
    assert_eq!(s.config, GameConfig::for_level(Level::Level1));
    s.game_state.is_game_over = true;
    assert!(s.keyboard_reset());
    assert!(!s.game_state.is_game_over);
}

#[test]
fn set_level_loads_config() {
    let mut s = EnvSession::new();
    s.env_state.episode_steps = 7;
    assert_eq!(s.set_level(2), Some(Level::Level2));
    assert_eq!(s.level, Level::Level2);
    assert_eq!(s.config.max_projectiles, 25);
    assert_eq!(s.env_state.episode_steps, 0);
    let before = s;
    assert_eq!(s.set_level(3), None);
    assert_eq!(s, before);
}

#[test]
fn parse_action_space_names() {
    assert_eq!(parse_action_space_type("Discrete"), Some(ActionSpaceType::Discrete));
    assert_eq!(
        parse_action_space_type("BASIC_4D"),
        Some(ActionSpaceType::Continuous(ContinuousActionConfig::BasicWithJump4D))
    );
    assert_eq!(parse_action_space_type("box"), None);
}

#[test]
fn configure_applies_fields_in_order() {
    let mut s = EnvSession::new();
    s.env_state.episode_steps = 5;
    let o = s.configure(Some(2), Some("discrete"), Some("TOPDOWN"), Some(84), Some(64), Some(true));
    assert_eq!(
        o,
        ConfigureOutcome {
            level_loaded: Some(Level::Level2),
            apply_motion_overrides: true,
            apply_thrower_delay: true,
            completed: true,
        }
    );
    assert_eq!(s.level, Level::Level2);
    assert_eq!(s.config.action_space_type, ActionSpaceType::Discrete);
    assert_eq!(s.config.observation_mode, ObservationMode::TopDownImage);
    assert_eq!((s.config.image_obs_width, s.config.image_obs_height), (84, 64));
    assert!(s.config.image_grayscale);
    assert_eq!(s.config.max_projectiles, 25);
    assert_eq!(s.env_state.episode_steps, 0);
}

#[test]
fn configure_stops_at_bad_fields() {
    let mut s = EnvSession::new();
    s.env_state.episode_steps = 5;
    let before = s;
    let o = s.configure(Some(9), Some("discrete"), None, None, None, None);
    assert_eq!(s, before);
    assert!(!o.completed && !o.apply_motion_overrides && o.level_loaded.is_none());

    let o = s.configure(Some(2), Some("nonsense"), None, None, None, None);
    assert_eq!(s.level, Level::Level2);
    assert_eq!(o.level_loaded, Some(Level::Level2));
    assert!(!o.apply_motion_overrides && !o.completed);
    assert_eq!(s.env_state.episode_steps, 5);

    let o = s.configure(None, Some("discrete"), Some("nonsense"), Some(100), None, None);
    assert!(o.apply_motion_overrides && !o.apply_thrower_delay && !o.completed);
    assert_eq!(s.config.action_space_type, ActionSpaceType::Discrete);
    assert_eq!(s.config.image_obs_width, 256);
}

#[test]
fn validated_configure_is_applied_in_full() {
    let level: Option<u8> = Some(1);
    let accepted = validate_configure(
        level.map(i32::from),
        Some("Basic_3D"),
        Ok(()),
        Ok(()),
        Some("with_thrower"),
        Ok(()),
        Some(128),
        None,
    );
    assert!(accepted.is_ok());
    let mut s = EnvSession::new();
    s.keyboard_level_change();
    let o = s.configure(level, Some("Basic_3D"), Some("with_thrower"), Some(128), None, Some(true));
    assert!(o.completed && o.apply_motion_overrides && o.apply_thrower_delay);
    assert_eq!(o.level_loaded, Some(Level::Level1));
    assert_eq!(s.level, Level::Level1);
    assert_eq!(s.config.action_space_type, ActionSpaceType::Continuous(ContinuousActionConfig::Basic3D));
    assert_eq!(s.config.observation_mode, ObservationMode::WithThrowerIndicator);
    assert_eq!(s.config.image_obs_width, 128);
    assert!(s.config.image_grayscale);
    assert_eq!(s.env_state.episode_steps, 0);
}
