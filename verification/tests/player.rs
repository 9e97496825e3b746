use uuid::Uuid;
use vampire_ripoff::entities::entity::{Collidable, Contact, Controllable, Entity};
use vampire_ripoff::entities::player::Player;
use vampire_ripoff::levels::level::LevelState;
use vampire_ripoff::tools::assets::Sprites;
use vampire_ripoff::tools::helpers::Point;
use vampire_ripoff::tools::input::{InputEvent, Key};

const SECOND: u64 = 1_000_000;

#[test]
fn a_new_player_is_at_rest_and_in_full_health() {
    let player = Player::new(Point::new(7, 9));
    let state = player.get_state();
    assert_eq!(state.pos().x(), 7_000_000_000);
    assert_eq!(state.pos().y(), 9_000_000_000);
    assert_eq!(state.bounds().width(), 26_000_000_000);
    assert_eq!(state.bounds().height(), 32_000_000_000);
    assert_eq!(state.speed(), 200);
    assert_eq!(state.hp(), 500);
    assert_eq!(state.damage(), 0);
    assert_eq!(state.x_velocity(), 0);
    assert_eq!(state.y_velocity(), 0);
    assert_eq!(state.sprite_asset_no(), Sprites::PLAYER);
    assert!(state.colliding_entities().is_empty());
    assert_eq!(player.get_position().x(), 7_000_000_000);
    assert_eq!(player.get_bounds().height(), 32_000_000_000);
}

#[test]
fn players_do_not_share_an_identity() {
    let a = Player::new(Point::new(0, 0));
    let b = Player::new(Point::new(0, 0));
    assert_ne!(a.get_state().id(), b.get_state().id());
    assert_ne!(a.get_state().id(), Uuid::nil());
    assert_eq!(a.get_state().id().get_version_num(), 4);
}

#[test]
fn keys_set_the_intent() {
    let mut player = Player::new(Point::new(0, 0));
    player.key_down(&Key::W);
    assert_eq!(player.get_state().y_velocity(), -1);
    player.key_down(&Key::S);
    assert_eq!(player.get_state().y_velocity(), 1);
    player.key_down(&Key::A);
    assert_eq!(player.get_state().x_velocity(), -1);
    player.key_down(&Key::D);
    assert_eq!(player.get_state().x_velocity(), 1);
    player.key_down(&Key::Return);
    player.key_down(&Key::Other);
    assert_eq!(player.get_state().x_velocity(), 1);
    assert_eq!(player.get_state().y_velocity(), 1);
}

#[test]
fn releasing_a_key_stops_its_own_direction() {
    let mut player = Player::new(Point::new(0, 0));
    for (key, other) in [(Key::W, Key::A), (Key::S, Key::D), (Key::A, Key::W), (Key::D, Key::S)] {
        player.key_down(&key);
        player.key_up(&other);
        let moving = player.get_state().x_velocity() != 0 || player.get_state().y_velocity() != 0;
        assert!(moving);
        player.key_up(&key);
        assert_eq!(player.get_state().x_velocity(), 0);
        assert_eq!(player.get_state().y_velocity(), 0);
    }
}

#[test]
fn a_stale_release_keeps_the_newer_press() {
    let mut player = Player::new(Point::new(0, 0));
    player.handle_input(&InputEvent::Press(Key::D));
    player.handle_input(&InputEvent::Press(Key::A));
    player.handle_input(&InputEvent::Release(Key::D));
    assert_eq!(player.get_state().x_velocity(), -1);
    player.handle_input(&InputEvent::Release(Key::A));
    assert_eq!(player.get_state().x_velocity(), 0);

    player.handle_input(&InputEvent::Press(Key::W));
    player.handle_input(&InputEvent::Press(Key::S));
    player.handle_input(&InputEvent::Release(Key::W));
    assert_eq!(player.get_state().y_velocity(), 1);
    player.handle_input(&InputEvent::Other);
    assert_eq!(player.get_state().y_velocity(), 1);
}

#[test]
fn releasing_a_key_that_was_never_pressed_changes_nothing() {
    let mut player = Player::new(Point::new(0, 0));
    player.key_up(&Key::W);
    player.key_up(&Key::D);
    player.key_up(&Key::Return);
    assert_eq!(player.get_state().x_velocity(), 0);
    assert_eq!(player.get_state().y_velocity(), 0);
}

#[test]
fn a_straight_course_covers_the_full_speed() {
    let mut level = LevelState::new();
    let mut player = Player::new(Point::new(10, 20));
    player.key_down(&Key::D);
    player.update(SECOND, &mut level);
    assert_eq!(player.get_position().x(), 210_000_000_000);
    assert_eq!(player.get_position().y(), 20_000_000_000);
    player.key_up(&Key::D);
    player.key_down(&Key::W);
    player.update(SECOND / 2, &mut level);
    assert_eq!(player.get_position().x(), 210_000_000_000);
    assert_eq!(player.get_position().y(), -80_000_000_000);
}

#[test]
fn a_diagonal_course_covers_0_707_of_the_speed_on_each_axis() {
    let mut level = LevelState::new();
    let mut player = Player::new(Point::new(10, 20));
    player.key_down(&Key::D);
    player.key_down(&Key::S);
    player.update(SECOND, &mut level);
    // 200 * 0.707 = 141.4 pixels, not 200
    assert_eq!(player.get_position().x(), 10_000_000_000 + 141_400_000_000);
    assert_eq!(player.get_position().y(), 20_000_000_000 + 141_400_000_000);
    player.key_down(&Key::A);
    player.key_down(&Key::W);
    player.update(16_667, &mut level);
    // 200 * 707 * 16667 units back
    assert_eq!(player.get_position().x(), 151_400_000_000 - 2_356_713_800);
    assert_eq!(player.get_position().y(), 161_400_000_000 - 2_356_713_800);
}

#[test]
fn a_player_at_rest_stays() {
    let mut level = LevelState::new();
    let mut player = Player::new(Point::new(10, 20));
    player.update(SECOND, &mut level);
    assert_eq!(player.get_position().x(), 10_000_000_000);
    assert_eq!(player.get_position().y(), 20_000_000_000);
    player.key_down(&Key::D);
    player.update(0, &mut level);
    assert_eq!(player.get_position().x(), 10_000_000_000);
}

#[test]
fn the_player_publishes_its_position() {
    let mut level = LevelState::new();
    assert_eq!(level.player_position.x(), 0);
    let mut player = Player::new(Point::new(10, 20));
    player.key_down(&Key::A);
    player.update(SECOND, &mut level);
    assert_eq!(level.player_position.x(), -190_000_000_000);
    assert_eq!(level.player_position.y(), 20_000_000_000);
    assert!(!level.debug);
}

#[test]
fn the_player_stops_at_the_edge_of_the_plane() {
    let limit: i64 = 4_611_686_018_427_387_904;
    let mut level = LevelState::new();
    let mut player = Player::new(Point::from_units(limit - 5, -limit + 5));
    player.key_down(&Key::D);
    player.key_down(&Key::W);
    player.update(SECOND, &mut level);
    assert_eq!(player.get_position().x(), limit);
    assert_eq!(player.get_position().y(), -limit);
    player.update(u64::MAX, &mut level);
    assert_eq!(player.get_position().x(), limit);
    assert_eq!(player.get_position().y(), -limit);
    player.key_down(&Key::A);
    player.key_down(&Key::S);
    player.update(u64::MAX, &mut level);
    assert_eq!(player.get_position().x(), -limit);
    assert_eq!(player.get_position().y(), limit);
}

#[test]
fn damage_accrues_by_the_frame_not_by_the_time() {
    let mut level = LevelState::new();
    let mut player = Player::new(Point::new(0, 0));
    let contact = Contact { id: Uuid::nil(), damage: 7 };
    let frames: [u64; 5] = [0, 1, 16_667, SECOND, 10 * SECOND];
    let mut expected: i64 = 500;
    for dt in frames {
        player.get_settings_mut().record_contact(contact);
        player.update(dt, &mut level);
        expected -= 7;
        assert_eq!(player.get_state().hp(), expected);
        assert!(player.get_state().colliding_entities().is_empty());
    }
    assert_eq!(player.get_state().hp(), 465);
    player.update(SECOND, &mut level);
    assert_eq!(player.get_state().hp(), 465);
}

#[test]
fn every_contact_of_a_frame_counts() {
    let mut level = LevelState::new();
    let mut player = Player::new(Point::new(0, 0));
    player.get_settings_mut().record_contact(Contact { id: Uuid::nil(), damage: 7 });
    player.get_settings_mut().record_contact(Contact { id: Uuid::nil(), damage: 0 });
    player.get_settings_mut().record_contact(Contact { id: Uuid::nil(), damage: 30 });
    assert_eq!(player.get_state().contact_damage(), 37);
    player.update(SECOND, &mut level);
    assert_eq!(player.get_state().hp(), 463);
}

#[test]
fn health_may_fall_below_zero() {
    let mut level = LevelState::new();
    let mut player = Player::new(Point::new(0, 0));
    player.get_settings_mut().record_contact(Contact { id: Uuid::nil(), damage: 501 });
    player.update(SECOND, &mut level);
    assert_eq!(player.get_state().hp(), -1);
    player.damage(&10);
    assert_eq!(player.get_state().hp(), -11);
}

#[test]
fn health_stops_at_the_least_value() {
    let mut player = Player::new(Point::new(0, 0));
    player.damage(&u64::MAX);
    assert_eq!(player.get_state().hp(), i64::MIN);
    player.damage(&1);
    assert_eq!(player.get_state().hp(), i64::MIN);
    let mut other = Player::new(Point::new(0, 0));
    other.get_settings_mut().take_damage(u128::MAX);
    assert_eq!(other.get_state().hp(), i64::MIN);
    let mut third = Player::new(Point::new(0, 0));
    third.get_settings_mut().take_damage(9_223_372_036_854_776_308);
    assert_eq!(third.get_state().hp(), i64::MIN);
    let mut fourth = Player::new(Point::new(0, 0));
    fourth.get_settings_mut().take_damage(9_223_372_036_854_776_307);
    assert_eq!(fourth.get_state().hp(), i64::MIN + 1);
}

#[test]
fn a_frame_keeps_what_the_player_is_made_of() {
    let mut level = LevelState::new();
    let mut player = Player::new(Point::new(0, 0));
    let id = player.get_state().id();
    player.key_down(&Key::D);
    player.get_settings_mut().record_contact(Contact { id: Uuid::nil(), damage: 3 });
    player.update(SECOND, &mut level);
    assert_eq!(player.get_state().id(), id);
    assert_eq!(player.get_state().bounds().width(), 26_000_000_000);
    assert_eq!(player.get_state().bounds().height(), 32_000_000_000);
    assert_eq!(player.get_state().speed(), 200);
    assert_eq!(player.get_state().damage(), 0);
    assert_eq!(player.get_state().sprite_asset_no(), Sprites::PLAYER);
    assert_eq!(player.get_state().x_velocity(), 1);
}

#[test]
fn the_player_can_be_placed() {
    let mut player = Player::new(Point::new(0, 0));
    player.set_pos(Point::new(960, 540));
    assert_eq!(player.get_position().x(), 960_000_000_000);
    assert_eq!(player.get_position().y(), 540_000_000_000);
    assert!(player.does_collide(&Player::new(Point::new(960, 540))));
}
