use dodge_rl::validation::{
    validate_action_space_type, validate_image_dimension, validate_level, validate_max_projectiles,
    validate_observation_mode, ValidationError, validate_configure,
};

#[test]
fn validation_error_keeps_message() {
    assert_eq!(ValidationError::new("bad".to_string()).message, "bad");
}

#[test]
fn level_validation() {
    assert!(validate_level(1).is_ok());
    assert!(validate_level(2).is_ok());
    assert_eq!(validate_level(0).unwrap_err().message, "Invalid level: 0. Must be 1 or 2");
    assert_eq!(validate_level(-12).unwrap_err().message, "Invalid level: -12. Must be 1 or 2");
    assert_eq!(validate_level(i32::MIN).unwrap_err().message, "Invalid level: -2147483648. Must be 1 or 2");
}

#[test]
fn action_space_validation() {
    assert!(validate_action_space_type("discrete").is_ok());
    assert!(validate_action_space_type("DISCRETE").is_ok());
    assert!(validate_action_space_type("tilt_5d").is_ok());
    assert!(validate_action_space_type("Full6D").is_ok());
    assert_eq!(
        validate_action_space_type("Box").unwrap_err().message,
        "Invalid action_space_type: 'Box'. Must be 'discrete' or a continuous variant"
    );
}

#[test]
fn observation_mode_validation() {
    assert!(validate_observation_mode("with_thrower").is_ok());
    assert!(validate_observation_mode("TopDown").is_ok());
    assert_eq!(
        validate_observation_mode("rgb").unwrap_err().message,
        "Invalid observation_mode: 'rgb'. Must be 'standard', 'with_thrower', or 'topdown'"
    );
}

#[test]
fn image_dimension_validation() {
    assert!(validate_image_dimension(32, "image_obs_width").is_ok());
    assert!(validate_image_dimension(512, "image_obs_width").is_ok());
    assert_eq!(
        validate_image_dimension(31, "image_obs_width").unwrap_err().message,
        "Invalid image_obs_width: 31. Must be between 32 and 512"
    );
    assert_eq!(
        validate_image_dimension(513, "image_obs_height").unwrap_err().message,
        "Invalid image_obs_height: 513. Must be between 32 and 512"
    );
}

#[test]
fn max_projectiles_validation() {
    assert!(validate_max_projectiles(1).is_ok());
    assert!(validate_max_projectiles(1000).is_ok());
    assert_eq!(
        validate_max_projectiles(0).unwrap_err().message,
        "Invalid max_projectiles: 0. Must be between 1 and 1000"
    );
    assert_eq!(
        validate_max_projectiles(1001).unwrap_err().message,
        "Invalid max_projectiles: 1001. Must be between 1 and 1000"
    );
}

#[test]
fn configure_validation_order() {
    let ok = || Ok(());
    let bad = |m: &str| Err(ValidationError::new(m.to_string()));
    assert!(validate_configure(None, None, ok(), ok(), None, ok(), None, None).is_ok());
    assert!(validate_configure(Some(2), Some("FULL_6D"), ok(), ok(), Some("TopDown"), ok(), Some(32), Some(512)).is_ok());
    // The level is checked first, the image height last.
    assert_eq!(
        validate_configure(Some(3), Some("nope"), bad("angle"), ok(), None, ok(), Some(1), None).unwrap_err().message,
        "Invalid level: 3. Must be 1 or 2"
    );
    assert_eq!(
        validate_configure(Some(1), Some("nope"), bad("angle"), ok(), None, ok(), None, None).unwrap_err().message,
        "Invalid action_space_type: 'nope'. Must be 'discrete' or a continuous variant"
    );
    assert_eq!(
        validate_configure(None, None, bad("angle"), bad("sprint"), Some("x"), ok(), None, None).unwrap_err().message,
        "angle"
    );
    assert_eq!(
        validate_configure(None, None, ok(), bad("sprint"), Some("x"), ok(), None, None).unwrap_err().message,
        "sprint"
    );
    assert_eq!(
        validate_configure(None, None, ok(), ok(), Some("x"), bad("delay"), None, None).unwrap_err().message,
        "Invalid observation_mode: 'x'. Must be 'standard', 'with_thrower', or 'topdown'"
    );
    assert_eq!(
        validate_configure(None, None, ok(), ok(), None, bad("delay"), Some(8), None).unwrap_err().message,
        "delay"
    );
    assert_eq!(
        validate_configure(None, None, ok(), ok(), None, ok(), Some(8), Some(9)).unwrap_err().message,
        "Invalid image_obs_width: 8. Must be between 32 and 512"
    );
    assert_eq!(
        validate_configure(None, None, ok(), ok(), None, ok(), Some(64), Some(513)).unwrap_err().message,
        "Invalid image_obs_height: 513. Must be between 32 and 512"
    );
}
