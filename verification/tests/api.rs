use dodge_rl::api::{
    action_space_spec, encode_image_observation, image_observation_bytes, image_observation_len,
    observation_dtype, observation_space_shape, validate_continuous_length, validate_discrete_action,
    validate_grpc_discrete_action, ActionSpaceSpec, check_grpc_step_action, check_step_action, GrpcAction,
    StepAction,
};
use dodge_rl::config::{ActionSpaceType, ContinuousActionConfig, GameConfig, ObservationMode};

fn image_config() -> GameConfig {
    GameConfig {
        observation_mode: ObservationMode::TopDownImage,
        image_obs_width: 2,
        image_obs_height: 1,
        image_grayscale: false,
        ..GameConfig::default()
    }
}

#[test]
fn observation_space_shapes() {
    let c = GameConfig::default();
    assert_eq!(observation_space_shape(&c), vec![65]);
    assert_eq!(observation_dtype(&c), "float32");
    let t = GameConfig { observation_mode: ObservationMode::WithThrowerIndicator, ..c };
    assert_eq!(observation_space_shape(&t), vec![69]);
    let i = GameConfig { observation_mode: ObservationMode::TopDownImage, image_obs_width: 84, image_obs_height: 64, image_grayscale: true, ..c };
    assert_eq!(observation_space_shape(&i), vec![64, 84, 1]);
    assert_eq!(observation_dtype(&i), "uint8");
    assert_eq!(image_observation_len(&i), 84 * 64);
}

#[test]
fn action_space_specs() {
    assert_eq!(action_space_spec(ActionSpaceType::Discrete), ActionSpaceSpec::Discrete { n: 5 });
    assert_eq!(
        action_space_spec(ActionSpaceType::Continuous(ContinuousActionConfig::Full6D)),
        ActionSpaceSpec::Box { shape: vec![6] }
    );
}

#[test]
fn image_payloads() {
    let c = image_config();
    let buffer = b"Man and more bytes".to_vec();
    // 2 x 1 RGB pixels: the first 6 bytes "Man an" in base64.
    assert_eq!(encode_image_observation(&c, &buffer), Some("TWFuIGFu".to_string()));
    assert_eq!(image_observation_bytes(&c, &buffer), b"Man an".to_vec());
    let v = GameConfig::default();
    assert_eq!(encode_image_observation(&v, &buffer), None);
    assert!(image_observation_bytes(&v, &buffer).is_empty());
}

#[test]
fn step_action_checks() {
    assert_eq!(validate_discrete_action(4), Ok(4));
    assert_eq!(validate_discrete_action(5).unwrap_err(), "Invalid action: 5. Must be in range [0, 5)");
    assert_eq!(validate_grpc_discrete_action(0), Ok(0));
    assert_eq!(validate_grpc_discrete_action(-1).unwrap_err(), "Invalid action: -1. Must be in range [0, 5)");
    assert!(validate_continuous_length(4, ContinuousActionConfig::BasicWithJump4D).is_ok());
    assert_eq!(
        validate_continuous_length(2, ContinuousActionConfig::Basic3D).unwrap_err(),
        "Continuous action must have 3 components for 3D Basic (vx, vy, sprint), got 2"
    );
}

#[test]
fn http_step_action_checks() {
    let d = ActionSpaceType::Discrete;
    let c = ActionSpaceType::Continuous(ContinuousActionConfig::Tilt5D);
    assert_eq!(check_step_action(d, Some(3), None), Ok(StepAction::Discrete(3)));
    assert_eq!(check_step_action(d, Some(9), None).unwrap_err(), "Invalid action: 9. Must be in range [0, 5)");
    assert_eq!(
        check_step_action(d, None, Some(2)).unwrap_err(),
        "Action must be an integer for discrete action space"
    );
    assert_eq!(check_step_action(c, None, Some(5)), Ok(StepAction::Continuous(ContinuousActionConfig::Tilt5D)));
    assert_eq!(
        check_step_action(c, Some(1), None).unwrap_err(),
        "Action must be an array for continuous action space"
    );
    assert_eq!(
        check_step_action(c, None, Some(3)).unwrap_err(),
        "Continuous action must have 5 components for 5D with Tilt (vx, vy, pitch, roll, sprint), got 3"
    );
}

#[test]
fn grpc_step_action_checks() {
    let d = ActionSpaceType::Discrete;
    let c = ActionSpaceType::Continuous(ContinuousActionConfig::Full6D);
    assert_eq!(check_grpc_step_action(d, None).unwrap_err(), "No action provided");
    assert_eq!(check_grpc_step_action(d, Some(GrpcAction::Discrete(2))), Ok(StepAction::Discrete(2)));
    // A discrete action is taken in a continuous action space too.
    assert_eq!(check_grpc_step_action(c, Some(GrpcAction::Discrete(4))), Ok(StepAction::Discrete(4)));
    assert_eq!(
        check_grpc_step_action(c, Some(GrpcAction::Discrete(-3))).unwrap_err(),
        "Invalid action: -3. Must be in range [0, 5)"
    );
    assert_eq!(
        check_grpc_step_action(d, Some(GrpcAction::Continuous(3))).unwrap_err(),
        "Received continuous action but action space is discrete"
    );
    assert_eq!(
        check_grpc_step_action(c, Some(GrpcAction::Continuous(6))),
        Ok(StepAction::Continuous(ContinuousActionConfig::Full6D))
    );
    assert_eq!(
        check_grpc_step_action(c, Some(GrpcAction::Continuous(7))).unwrap_err(),
        "Continuous action must have 6 components, got 7"
    );
}

#[test]
fn http_and_grpc_agree_on_discrete_actions() {
    for a in [0u64, 1, 4, 5, 17, i32::MAX as u64] {
        assert_eq!(
            check_step_action(ActionSpaceType::Discrete, Some(a), None),
            check_grpc_step_action(ActionSpaceType::Discrete, Some(GrpcAction::Discrete(a as i32)))
        );
    }
}
