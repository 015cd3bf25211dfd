use dodge_rl::action::{action_layout, check_action_length, ActionLayout, GridDirection, RLAction};
use dodge_rl::config::ContinuousActionConfig;

#[test]
fn test_action_from_index() {
    assert_eq!(RLAction::from_index(0).unwrap(), RLAction::Noop);
    assert_eq!(RLAction::from_index(1).unwrap(), RLAction::Up);
    assert_eq!(RLAction::from_index(2).unwrap(), RLAction::Down);
    assert_eq!(RLAction::from_index(3).unwrap(), RLAction::Left);
    assert_eq!(RLAction::from_index(4).unwrap(), RLAction::Right);
    assert!(RLAction::from_index(5).is_err());
}

#[test]
fn test_action_to_direction() {
    assert_eq!(RLAction::Noop.to_direction(), GridDirection { x: 0, y: 0 });
    assert_eq!(RLAction::Up.to_direction(), GridDirection { x: 0, y: 1 });
    assert_eq!(RLAction::Down.to_direction(), GridDirection { x: 0, y: -1 });
    assert_eq!(RLAction::Left.to_direction(), GridDirection { x: -1, y: 0 });
    assert_eq!(RLAction::Right.to_direction(), GridDirection { x: 1, y: 0 });
}

#[test]
fn action_index_message_names_the_index() {
    assert_eq!(
        RLAction::from_index(17).unwrap_err(),
        "Invalid action index: 17. Must be in range [0, 5)"
    );
}

#[test]
fn action_index_roundtrip() {
    for a in [RLAction::Noop, RLAction::Up, RLAction::Down, RLAction::Left, RLAction::Right] {
        assert_eq!(RLAction::from_index(a.index()).unwrap(), a);
    }
}

#[test]
fn layouts_put_controls_at_their_names() {
    for c in [
        ContinuousActionConfig::Basic3D,
        ContinuousActionConfig::BasicWithJump4D,
        ContinuousActionConfig::Tilt5D,
        ContinuousActionConfig::Full6D,
    ] {
        let names = c.component_names();
        let l = action_layout(c);
        assert_eq!(names.len(), c.dimension());
        assert_eq!(names[0], "vx");
        assert_eq!(names[1], "vy");
        assert_eq!(names[l.sprint], "sprint");
        if let Some(j) = l.jump {
            assert_eq!(names[j], "jump");
        }
        if let Some(p) = l.pitch {
            assert_eq!(names[p], "pitch");
        }
        if let Some(r) = l.roll {
            assert_eq!(names[r], "roll");
        }
    }
    assert_eq!(
        action_layout(ContinuousActionConfig::Full6D),
        ActionLayout { sprint: 5, jump: Some(2), pitch: Some(3), roll: Some(4) }
    );
}

#[test]
fn action_length_check() {
    assert!(check_action_length(3, ContinuousActionConfig::Basic3D).is_ok());
    assert!(check_action_length(6, ContinuousActionConfig::Full6D).is_ok());
    assert_eq!(
        check_action_length(2, ContinuousActionConfig::Basic3D).unwrap_err(),
        "Expected 3 components for 3D Basic (vx, vy, sprint), got 2"
    );
    assert_eq!(
        check_action_length(3, ContinuousActionConfig::Tilt5D).unwrap_err(),
        "Expected 5 components for 5D with Tilt (vx, vy, pitch, roll, sprint), got 3"
    );
}
