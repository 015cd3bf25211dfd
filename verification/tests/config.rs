use dodge_rl::config::{
    ActionSpaceType, ApiConfig, ContinuousActionConfig, GameConfig, Level, ObservationMode, IMAGE_OBS_CHANNELS,
    IMAGE_OBS_HEIGHT, IMAGE_OBS_WIDTH,
};

#[test]
fn continuous_config_dimensions_and_names() {
    assert_eq!(ContinuousActionConfig::Basic3D.dimension(), 3);
    assert_eq!(ContinuousActionConfig::BasicWithJump4D.dimension(), 4);
    assert_eq!(ContinuousActionConfig::Tilt5D.dimension(), 5);
    assert_eq!(ContinuousActionConfig::Full6D.dimension(), 6);
    assert_eq!(ContinuousActionConfig::Tilt5D.name(), "5D with Tilt (vx, vy, pitch, roll, sprint)");
    assert_eq!(ContinuousActionConfig::Full6D.component_names(), vec!["vx", "vy", "jump", "pitch", "roll", "sprint"]);
    assert_eq!(ContinuousActionConfig::BasicWithJump4D.to_string(), "basic_4d_jump");
    assert_eq!(ContinuousActionConfig::default(), ContinuousActionConfig::Tilt5D);
}

#[test]
fn continuous_config_parsing_ignores_case() {
    assert_eq!(ContinuousActionConfig::from_str("basic_3d"), Some(ContinuousActionConfig::Basic3D));
    assert_eq!(ContinuousActionConfig::from_str("BASIC3D"), Some(ContinuousActionConfig::Basic3D));
    assert_eq!(ContinuousActionConfig::from_str("Jump4D"), Some(ContinuousActionConfig::BasicWithJump4D));
    assert_eq!(ContinuousActionConfig::from_str("4d_jump"), Some(ContinuousActionConfig::BasicWithJump4D));
    assert_eq!(ContinuousActionConfig::from_str("5D"), Some(ContinuousActionConfig::Tilt5D));
    assert_eq!(ContinuousActionConfig::from_str("Full_6d"), Some(ContinuousActionConfig::Full6D));
    assert_eq!(ContinuousActionConfig::from_str("Basic_4D_Jump"), Some(ContinuousActionConfig::BasicWithJump4D));
    assert_eq!(ContinuousActionConfig::from_str("7d"), None);
    assert_eq!(ContinuousActionConfig::from_lowercase("FULL6D"), None);
}

#[test]
fn api_names_parse_back() {
    for c in [
        ContinuousActionConfig::Basic3D,
        ContinuousActionConfig::BasicWithJump4D,
        ContinuousActionConfig::Tilt5D,
        ContinuousActionConfig::Full6D,
    ] {
        assert_eq!(ContinuousActionConfig::from_str(c.to_string()), Some(c));
    }
}

#[test]
fn observation_mode_parsing_and_sizes() {
    assert_eq!(ObservationMode::from_str("STANDARD"), Some(ObservationMode::Standard));
    assert_eq!(ObservationMode::from_str("default"), Some(ObservationMode::Standard));
    assert_eq!(ObservationMode::from_str("Thrower"), Some(ObservationMode::WithThrowerIndicator));
    assert_eq!(ObservationMode::from_str("image"), Some(ObservationMode::TopDownImage));
    assert_eq!(ObservationMode::from_str("pixels"), None);
    assert_eq!(ObservationMode::Standard.observation_size(), 65);
    assert_eq!(ObservationMode::WithThrowerIndicator.observation_size(), 69);
    assert_eq!(ObservationMode::TopDownImage.observation_size(), 0);
    assert!(ObservationMode::TopDownImage.is_image_mode());
    assert!(!ObservationMode::Standard.is_image_mode());
    assert_eq!(ObservationMode::TopDownImage.image_shape(), Some((IMAGE_OBS_WIDTH, IMAGE_OBS_HEIGHT, IMAGE_OBS_CHANNELS)));
    assert_eq!(ObservationMode::Standard.image_shape(), None);
    assert_eq!(ObservationMode::default(), ObservationMode::Standard);
}

#[test]
fn levels_cycle() {
    assert_eq!(Level::Level1.next(), Level::Level2);
    assert_eq!(Level::Level2.next(), Level::Level1);
    assert_eq!(Level::Level1.number(), 1);
    assert_eq!(Level::Level2.number(), 2);
    assert_eq!(Level::Level1.name(), "Level 1 (Baseline)");
    assert_eq!(Level::Level2.name(), "Level 2 (Hard)");
    assert_eq!(Level::from_number(2), Some(Level::Level2));
    assert_eq!(Level::from_number(3), None);
    assert_eq!(Level::default(), Level::Level1);
}

#[test]
fn level_configurations() {
    let l1 = GameConfig::for_level(Level::Level1);
    let l2 = GameConfig::for_level(Level::Level2);
    assert_eq!(l1.max_projectiles, 10);
    assert!(!l1.random_spawn_position);
    assert_eq!(l2.max_projectiles, 25);
    assert!(l2.random_spawn_position);
    assert_eq!(l1.action_space_type, ActionSpaceType::Continuous(ContinuousActionConfig::Tilt5D));
    assert_eq!(l1.observation_mode, ObservationMode::Standard);
    assert_eq!((l1.image_obs_width, l1.image_obs_height), (256, 256));
    assert_eq!(l1.image_channels(), 3);
    assert_eq!(GameConfig { image_grayscale: true, ..l1 }.image_channels(), 1);
    assert_eq!(GameConfig::default(), l1);
    assert_eq!(ActionSpaceType::default(), ActionSpaceType::Discrete);
}

#[test]
fn api_config_default() {
    let c = ApiConfig::default();
    assert_eq!(c.host, "127.0.0.1");
    assert_eq!(c.port, 8000);
}
