use moving_sprite::app::{
    count_n_transforms, create_app, get_transform_coordinat, App, Schedule, System,
};
use moving_sprite::error::GameError;
use moving_sprite::game_parameters::{
    create_default_game_parameters, create_default_game_parameters_with_player_velocity,
    GameParameters,
};
use moving_sprite::keyboard::Key;
use moving_sprite::math::{Vec2, Vec3};
use moving_sprite::player::Player;

#[test]
fn test_can_create_app() {
    create_app(create_default_game_parameters());
}

#[test]
fn test_empty_app_has_no_players() {
    let app = App::new();
    assert_eq!(count_n_transforms(&app), 0);
}

#[test]
fn test_add_player_adds_a_player() {
    let mut app = App::new();
    assert_eq!(count_n_transforms(&app), 0);
    app.add_systems(Schedule::Startup, System::AddSpriteBundle);
    app.update().unwrap();
    assert_eq!(count_n_transforms(&app), 1);
}

#[test]
fn test_create_app_has_a_player() {
    let mut app = create_app(create_default_game_parameters());
    app.update().unwrap();
    assert_eq!(count_n_transforms(&app), 1);
}

#[test]
fn test_player_is_at_origin() {
    let mut app = create_app(create_default_game_parameters());
    app.update().unwrap();
    assert_eq!(count_n_transforms(&app), 1);
    assert_eq!(get_transform_coordinat(&app), Vec3::new(0, 0, 0));
}

#[test]
fn test_player_responds_to_right_arrow_key() {
    let mut app = create_app(create_default_game_parameters());
    app.add_input_plugin();
    assert!(app.is_input_plugin_added());
    app.update().unwrap();

    // Not moved yet
    assert_eq!(count_n_transforms(&app), 1);
    assert_eq!(Vec3::new(0, 0, 0), get_transform_coordinat(&app));

    // Press the right arrow button
    app.press(Key::ArrowRight);

    app.update().unwrap();
    app.update().unwrap();
    app.update().unwrap();

    // At least the velocity should change
    assert_eq!(count_n_transforms(&app), 1);
    assert_ne!(Vec3::new(0, 0, 0), get_transform_coordinat(&app));
}

#[test]
fn created_app_has_no_player_and_no_keyboard_before_its_first_frame() {
    let app = create_app(create_default_game_parameters());
    assert_eq!(count_n_transforms(&app), 0);
    assert!(!app.is_input_plugin_added());
    assert_eq!(app.player(), Err(GameError::NoPlayer));
}

#[test]
fn there_is_one_player_after_every_frame() {
    let mut app = create_app(create_default_game_parameters_with_player_velocity(Vec2::new(1, 1)));
    app.add_input_plugin();
    for _ in 0..5 {
        app.press(Key::ArrowLeft);
        app.update().unwrap();
        app.release(Key::ArrowLeft);
        assert_eq!(count_n_transforms(&app), 1);
    }
}

#[test]
fn player_starts_with_the_configured_position_and_scale() {
    let parameters = GameParameters {
        initial_player_position: Vec3::new(12, -34, 5),
        initial_player_scale: Vec3::new(64, 32, 1),
        initial_player_velocity: Vec2::new(0, 0),
    };
    let mut app = create_app(parameters);
    app.update().unwrap();
    assert_eq!(
        app.player(),
        Ok(Player {
            position: Vec3::new(12, -34, 5),
            scale: Vec3::new(64, 32, 1),
            velocity: Vec2::new(0, 0),
        })
    );
    assert_eq!(get_transform_coordinat(&app), Vec3::new(12, -34, 5));
}

#[test]
fn initial_velocity_moves_the_player_by_itself_each_frame() {
    let mut parameters = create_default_game_parameters_with_player_velocity(Vec2::new(3, -4));
    parameters.initial_player_position = Vec3::new(10, 20, 30);
    let mut app = create_app(parameters);
    app.update().unwrap();
    assert_eq!(get_transform_coordinat(&app), Vec3::new(13, 16, 30));
    assert_eq!(app.player().unwrap().velocity, Vec2::new(3, -4));
    app.update().unwrap();
    assert_eq!(get_transform_coordinat(&app), Vec3::new(16, 12, 30));
    app.update().unwrap();
    assert_eq!(get_transform_coordinat(&app), Vec3::new(19, 8, 30));
    assert_eq!(app.player().unwrap().velocity, Vec2::new(3, -4));
    assert_eq!(app.player().unwrap().scale, Vec3::new(100, 20, 1));
}

#[test]
fn without_a_keyboard_a_resting_player_stays_and_keys_are_ignored() {
    let mut app = create_app(create_default_game_parameters());
    app.press(Key::ArrowRight);
    assert!(!app.is_input_plugin_added());
    for _ in 0..4 {
        app.update().unwrap();
        app.press(Key::ArrowRight);
        app.release(Key::ArrowRight);
        assert_eq!(app.player(), Ok(Player::spawn(&create_default_game_parameters())));
    }
}

#[test]
fn right_arrow_changes_velocity_and_position_in_the_same_frame() {
    let mut app = create_app(create_default_game_parameters());
    app.add_input_plugin();
    app.press(Key::ArrowRight);
    app.update().unwrap();
    assert_eq!(app.player().unwrap().velocity, Vec2::new(1, 0));
    assert_eq!(get_transform_coordinat(&app), Vec3::new(1, 0, 0));
}

#[test]
fn a_key_that_stays_down_acts_in_one_frame_only() {
    let mut app = create_app(create_default_game_parameters());
    app.add_input_plugin();
    app.update().unwrap();
    app.press(Key::ArrowRight);
    app.update().unwrap();
    app.update().unwrap();
    app.update().unwrap();
    assert_eq!(app.player().unwrap().velocity, Vec2::new(1, 0));
    assert_eq!(get_transform_coordinat(&app), Vec3::new(3, 0, 0));
    // Pressing a key that is down already is no new edge.
    app.press(Key::ArrowRight);
    app.update().unwrap();
    assert_eq!(app.player().unwrap().velocity, Vec2::new(1, 0));
    assert_eq!(get_transform_coordinat(&app), Vec3::new(4, 0, 0));
}

#[test]
fn a_key_acts_again_after_it_was_released() {
    let mut app = create_app(create_default_game_parameters());
    app.add_input_plugin();
    app.press(Key::ArrowRight);
    app.update().unwrap();
    app.release(Key::ArrowRight);
    app.press(Key::ArrowRight);
    app.update().unwrap();
    assert_eq!(app.player().unwrap().velocity, Vec2::new(2, 0));
    assert_eq!(get_transform_coordinat(&app), Vec3::new(3, 0, 0));
}

#[test]
fn left_arrow_and_other_keys() {
    let mut app = create_app(create_default_game_parameters());
    app.add_input_plugin();
    app.press(Key::Space);
    app.update().unwrap();
    assert_eq!(app.player().unwrap().velocity, Vec2::new(0, 0));
    assert_eq!(get_transform_coordinat(&app), Vec3::new(0, 0, 0));
    app.press(Key::ArrowLeft);
    app.update().unwrap();
    assert_eq!(app.player().unwrap().velocity, Vec2::new(-1, 0));
    assert_eq!(get_transform_coordinat(&app), Vec3::new(-1, 0, 0));
    app.press(Key::ArrowRight);
    app.release(Key::ArrowLeft);
    app.press(Key::ArrowLeft);
    app.update().unwrap();
    assert_eq!(app.player().unwrap().velocity, Vec2::new(-1, 0));
    assert_eq!(get_transform_coordinat(&app), Vec3::new(-2, 0, 0));
}

#[test]
fn adding_the_keyboard_twice_keeps_the_keys_that_are_down() {
    let mut app = create_app(create_default_game_parameters());
    app.add_input_plugin();
    app.press(Key::ArrowRight);
    app.add_input_plugin();
    assert!(app.is_input_plugin_added());
    app.update().unwrap();
    assert_eq!(app.player().unwrap().velocity, Vec2::new(1, 0));
}

#[test]
fn a_refused_frame_leaves_the_app_as_it_was() {
    let mut parameters = create_default_game_parameters_with_player_velocity(Vec2::new(1, 0));
    parameters.initial_player_position = Vec3::new(i32::MAX - 1, 0, 0);
    let mut app = create_app(parameters);
    app.update().unwrap();
    assert_eq!(get_transform_coordinat(&app), Vec3::new(i32::MAX, 0, 0));
    assert_eq!(app.update(), Err(GameError::OutOfRange));
    assert_eq!(count_n_transforms(&app), 1);
    assert_eq!(get_transform_coordinat(&app), Vec3::new(i32::MAX, 0, 0));
    assert_eq!(app.player().unwrap().velocity, Vec2::new(1, 0));
}

#[test]
fn a_refused_first_frame_spawns_nobody() {
    let mut parameters = create_default_game_parameters_with_player_velocity(Vec2::new(0, -1));
    parameters.initial_player_position = Vec3::new(0, i32::MIN, 0);
    let mut app = create_app(parameters);
    assert_eq!(app.update(), Err(GameError::OutOfRange));
    assert_eq!(count_n_transforms(&app), 0);
    assert_eq!(app.update(), Err(GameError::OutOfRange));
    assert_eq!(count_n_transforms(&app), 0);
}

#[test]
fn a_refused_frame_keeps_the_key_press_for_the_next_one() {
    let mut parameters = create_default_game_parameters_with_player_velocity(Vec2::new(i32::MAX, 0));
    parameters.initial_player_position = Vec3::new(-i32::MAX, 0, 0);
    let mut app = create_app(parameters);
    app.add_input_plugin();
    app.update().unwrap();
    assert_eq!(get_transform_coordinat(&app), Vec3::new(0, 0, 0));
    app.press(Key::ArrowRight);
    assert_eq!(app.update(), Err(GameError::OutOfRange));
    assert_eq!(get_transform_coordinat(&app), Vec3::new(0, 0, 0));
    app.press(Key::ArrowLeft);
    app.update().unwrap();
    assert_eq!(app.player().unwrap().velocity, Vec2::new(i32::MAX, 0));
    assert_eq!(get_transform_coordinat(&app), Vec3::new(i32::MAX, 0, 0));
}

#[test]
fn steps_that_find_no_player_or_several_are_refused() {
    let mut app = App::new();
    app.add_systems(Schedule::Update, System::MovePlayer);
    assert_eq!(app.update(), Err(GameError::NoPlayer));

    let mut app = App::new();
    app.add_systems(Schedule::Startup, System::AddSpriteBundle);
    app.add_systems(Schedule::Startup, System::AddSpriteBundle);
    app.add_systems(Schedule::Update, System::MovePlayer);
    assert_eq!(app.update(), Err(GameError::MultiplePlayers));
    assert_eq!(count_n_transforms(&app), 0);
    assert_eq!(app.player(), Err(GameError::NoPlayer));

    let mut app = App::new();
    app.add_systems(Schedule::Startup, System::AddSpriteBundle);
    app.add_systems(Schedule::Startup, System::AddSpriteBundle);
    app.update().unwrap();
    assert_eq!(count_n_transforms(&app), 2);
    assert_eq!(app.player(), Err(GameError::MultiplePlayers));
}

#[test]
fn keyboard_step_without_a_keyboard_asks_for_no_player() {
    let mut app = App::new();
    app.add_systems(Schedule::Update, System::RespondToKeyboard);
    assert_eq!(app.update(), Ok(()));
    app.add_input_plugin();
    assert_eq!(app.update(), Err(GameError::NoPlayer));
}

#[test]
fn startup_steps_run_in_the_first_frame_only_and_the_others_in_order() {
    let mut app = App::new();
    app.insert_resource(create_default_game_parameters_with_player_velocity(Vec2::new(2, 5)));
    app.add_systems(Schedule::Startup, System::AddSpriteBundle);
    app.add_systems(Schedule::Update, System::MovePlayer);
    app.add_systems(Schedule::Update, System::RespondToKeyboard);
    app.add_systems(Schedule::Update, System::MovePlayer);
    app.add_input_plugin();
    app.press(Key::ArrowRight);
    app.update().unwrap();
    // Moved by (2, 5), steered to (3, 5), moved by (3, 5).
    assert_eq!(count_n_transforms(&app), 1);
    assert_eq!(get_transform_coordinat(&app), Vec3::new(5, 10, 0));
    app.update().unwrap();
    assert_eq!(count_n_transforms(&app), 1);
    assert_eq!(get_transform_coordinat(&app), Vec3::new(11, 20, 0));
}
