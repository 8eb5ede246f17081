use dodge_game::tuning::{ENEMY_SIZE, ENEMY_SPEED, PLAYER_SIZE, PLAYER_SPEED};

#[test]
fn player_tuning_values() {
    assert_eq!(PLAYER_SPEED as f32, 400.0);
    assert_eq!(PLAYER_SIZE as f32, 50.0);
    assert_eq!(PLAYER_SIZE as f32 / 2.0, 25.0);
}

#[test]
fn enemy_tuning_values() {
    assert_eq!(ENEMY_SPEED as f32, 400.0);
    assert_eq!(ENEMY_SIZE as f32, 50.0);
}
