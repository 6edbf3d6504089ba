use moving_sprite::game_parameters::{
    create_default_game_parameters, create_default_game_parameters_with_player_velocity,
    GameParameters,
};
use moving_sprite::math::{Vec2, Vec3};

#[test]
fn test_create_default_game_parameters() {
    create_default_game_parameters();
}

#[test]
fn test_initial_player_position() {
    assert_eq!(
        create_default_game_parameters().initial_player_position,
        Vec3::new(0, 0, 0)
    );
}

#[test]
fn test_initial_player_scale() {
    assert_eq!(
        create_default_game_parameters().initial_player_scale,
        Vec3::new(100, 20, 1)
    );
}

#[test]
fn game_parameters_test_initial_player_velocity() {
    assert_eq!(
        create_default_game_parameters().initial_player_velocity,
        Vec2::new(0, 0)
    );
}

#[test]
fn test_create_default_game_parameters_with_player_velocity() {
    let velocity = Vec2::new(11, 22);
    let params = create_default_game_parameters_with_player_velocity(velocity);
    assert_eq!(velocity, params.initial_player_velocity);
}

#[test]
fn custom_velocity_leaves_position_and_scale_at_their_defaults() {
    let params = create_default_game_parameters_with_player_velocity(Vec2::new(-7, 9));
    assert_eq!(
        params,
        GameParameters {
            initial_player_position: Vec3::new(0, 0, 0),
            initial_player_scale: Vec3::new(100, 20, 1),
            initial_player_velocity: Vec2::new(-7, 9),
        }
    );
}
