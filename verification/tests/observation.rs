use dodge_rl::config::ObservationMode;
use dodge_rl::observation::{
    extract_observation, extract_observation_with_mode, MAX_PROJECTILES, OBSERVATION_SIZE,
    OBSERVATION_SIZE_EXTENDED,
};

#[test]
fn test_observation_size() {
    assert_eq!(OBSERVATION_SIZE, 65);
}

#[test]
fn test_observation_size_extended() {
    assert_eq!(OBSERVATION_SIZE_EXTENDED, 69);
}

#[test]
fn observation_places_player_and_projectiles() {
    let player = Some([1.0f32, 2.0, 3.0, 4.0, 5.0]);
    let projectiles = vec![[10.0f32, 11.0, 12.0, 13.0, 14.0, 15.0], [20.0, 21.0, 22.0, 23.0, 24.0, 25.0]];
    let obs = extract_observation(player, &projectiles, 0.0f32);
    assert_eq!(obs.len(), 65);
    assert_eq!(&obs[0..5], &[1.0, 2.0, 3.0, 4.0, 5.0]);
    assert_eq!(&obs[5..11], &[10.0, 11.0, 12.0, 13.0, 14.0, 15.0]);
    assert_eq!(&obs[11..17], &[20.0, 21.0, 22.0, 23.0, 24.0, 25.0]);
    assert!(obs[17..].iter().all(|&v| v == 0.0));
}

#[test]
fn observation_keeps_ten_projectiles() {
    let projectiles: Vec<[i32; 6]> = (0..12).map(|k| [k; 6]).collect();
    let obs = extract_observation(None, &projectiles, -1);
    assert_eq!(obs.len(), OBSERVATION_SIZE);
    assert_eq!(&obs[0..5], &[-1; 5]);
    for k in 0..MAX_PROJECTILES {
        assert_eq!(&obs[5 + 6 * k..11 + 6 * k], &[k as i32; 6]);
    }
}

#[test]
fn observation_modes() {
    let player = Some([1, 2, 3, 4, 5]);
    let projectiles = vec![[7; 6]];
    let std = extract_observation_with_mode(ObservationMode::Standard, player, &projectiles, Some([9; 4]), 0);
    assert_eq!(std, extract_observation(player, &projectiles, 0));
    let img = extract_observation_with_mode(ObservationMode::TopDownImage, player, &projectiles, None, 0);
    assert!(img.is_empty());
    let ext =
        extract_observation_with_mode(ObservationMode::WithThrowerIndicator, player, &projectiles, Some([6, 7, 8, 9]), 0);
    assert_eq!(ext.len(), 69);
    assert_eq!(&ext[65..69], &[6, 7, 8, 9]);
    let ext_none = extract_observation_with_mode(ObservationMode::WithThrowerIndicator, player, &projectiles, None, 0);
    assert_eq!(&ext_none[65..69], &[0, 0, 0, 0]);
}
