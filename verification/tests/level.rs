use vampire_ripoff::entities::entity::{Controllable, Entity};
use vampire_ripoff::levels::level::{Level, LevelState, ENEMY_COUNT, WORLD_HEIGHT, WORLD_WIDTH};
use vampire_ripoff::tools::assets::Sprites;
use vampire_ripoff::tools::helpers::{Point, Texture};
use vampire_ripoff::tools::input::{InputEvent, Key};

const UNIT: i64 = 1_000_000_000;

#[test]
fn a_new_level_holds_a_player_and_nothing_else() {
    let level = Level::new();
    assert!(!level.state.debug);
    assert_eq!(level.state.player_position.x(), 0);
    assert_eq!(level.state.player_position.y(), 0);
    assert!(level.state.entity_textures.is_empty());
    assert_eq!(level.entities.player.get_position().x(), 0);
    assert_eq!(level.entities.player.get_position().y(), 0);
    assert_eq!(level.entities.player.get_state().hp(), 500);
    assert!(level.entities.entities.is_empty());
    assert_eq!(level.required_assets, vec![Sprites::PLAYER, Sprites::SKELETON]);
}

#[test]
fn placing_the_player_does_not_publish_its_position() {
    let mut level = Level::new();
    level.set_player_pos(960, 540);
    assert_eq!(level.entities.player.get_position().x(), 960 * UNIT);
    assert_eq!(level.entities.player.get_position().y(), 540 * UNIT);
    assert_eq!(level.state.player_position.x(), 0);
    level.update(0);
    assert_eq!(level.state.player_position.x(), 960 * UNIT);
    assert_eq!(level.state.player_position.y(), 540 * UNIT);
}

#[test]
fn configuration_can_be_chained() {
    let mut level = Level::new();
    level
        .set_player_pos(1920 / 2, 1080 / 2)
        .load_textures(&vec![Some(Texture { slot: 0 }), Some(Texture { slot: 1 })])
        .spawn_enemies();
    assert_eq!(level.entities.player.get_position().x(), 960 * UNIT);
    assert_eq!(level.state.get_texture(&Sprites::SKELETON), Some(Texture { slot: 1 }));
    assert_eq!(level.entities.entities.len(), 100);
}

#[test]
fn enemies_spawn_on_whole_pixels_inside_the_world() {
    assert_eq!(ENEMY_COUNT, 100);
    assert_eq!(WORLD_WIDTH, 1920);
    assert_eq!(WORLD_HEIGHT, 1080);
    let mut level = Level::new();
    level.spawn_enemies();
    assert_eq!(level.entities.entities.len(), 100);
    for enemy in &level.entities.entities {
        let pos = enemy.get_position();
        assert!(0 <= pos.x() && pos.x() < 1920 * UNIT);
        assert!(0 <= pos.y() && pos.y() < 1080 * UNIT);
        assert_eq!(pos.x() % UNIT, 0);
        assert_eq!(pos.y() % UNIT, 0);
        assert_eq!(enemy.get_state().speed(), 50);
        assert_eq!(enemy.get_state().damage(), 1);
        assert_eq!(enemy.get_state().sprite_asset_no(), Sprites::SKELETON);
    }
}

#[test]
fn enemies_spawn_in_different_places() {
    let mut level = Level::new();
    level.spawn_enemies();
    let first = level.entities.entities[0].get_position();
    let spread = level
        .entities
        .entities
        .iter()
        .any(|e| e.get_position().x() != first.x() || e.get_position().y() != first.y());
    assert!(spread);
    let wide = level.entities.entities.iter().any(|e| e.get_position().x() >= 1080 * UNIT);
    assert!(wide);
}

#[test]
fn spawned_enemies_have_identities_of_their_own() {
    let mut level = Level::new();
    level.spawn_enemies();
    let mut ids: Vec<_> = level.entities.entities.iter().map(|e| e.get_state().id()).collect();
    ids.push(level.entities.player.get_state().id());
    ids.sort();
    ids.dedup();
    assert_eq!(ids.len(), 101);
}

#[test]
fn spawning_replaces_the_enemies_and_leaves_the_rest() {
    let mut level = Level::new();
    level.set_player_pos(3, 4);
    let player = level.entities.player.get_state().id();
    level.spawn_enemies_at(&vec![Point::new(1, 1), Point::new(2, 2), Point::new(3, 3)]);
    assert_eq!(level.entities.entities.len(), 3);
    level.spawn_enemies_at(&vec![Point::new(7, 8), Point::from_units(5, -6)]);
    assert_eq!(level.entities.entities.len(), 2);
    assert_eq!(level.entities.entities[0].get_position().x(), 7 * UNIT);
    assert_eq!(level.entities.entities[0].get_position().y(), 8 * UNIT);
    assert_eq!(level.entities.entities[1].get_position().x(), 5);
    assert_eq!(level.entities.entities[1].get_position().y(), -6);
    assert_eq!(level.entities.player.get_state().id(), player);
    assert_eq!(level.entities.player.get_position().x(), 3 * UNIT);
    assert_eq!(level.required_assets, vec![Sprites::PLAYER, Sprites::SKELETON]);
    level.spawn_enemies_at(&vec![]);
    assert!(level.entities.entities.is_empty());
    level.spawn_enemies();
    assert_eq!(level.entities.entities.len(), 100);
}

#[test]
fn textures_are_kept_by_sprite() {
    let mut level = Level::new();
    level.load_textures(&vec![Some(Texture { slot: 4 }), Some(Texture { slot: 9 })]);
    assert_eq!(level.state.get_texture(&Sprites::PLAYER), Some(Texture { slot: 4 }));
    assert_eq!(level.state.get_texture(&Sprites::SKELETON), Some(Texture { slot: 9 }));
    assert_eq!(level.state.get_texture(&Sprites::GHOST), None);
    assert_eq!(level.state.get_texture(&Sprites::Goblin), None);
    assert_eq!(level.state.get_texture(&Sprites::Imp), None);
}

#[test]
fn a_texture_that_failed_to_load_is_absent() {
    let mut level = Level::new();
    level.load_textures(&vec![None, Some(Texture { slot: 1 })]);
    assert_eq!(level.state.get_texture(&Sprites::PLAYER), None);
    assert_eq!(level.state.get_texture(&Sprites::SKELETON), Some(Texture { slot: 1 }));
    assert_eq!(level.state.entity_textures.len(), 2);
    assert_eq!(level.state.entity_textures.get(&Sprites::PLAYER.number()), Some(&None));
}

#[test]
fn a_texture_without_an_outcome_is_absent() {
    let mut level = Level::new();
    level.load_textures(&vec![Some(Texture { slot: 1 })]);
    assert_eq!(level.state.get_texture(&Sprites::PLAYER), Some(Texture { slot: 1 }));
    assert_eq!(level.state.get_texture(&Sprites::SKELETON), None);
    level.load_textures(&vec![]);
    assert_eq!(level.state.get_texture(&Sprites::PLAYER), None);
    assert_eq!(level.state.entity_textures.len(), 2);
}

#[test]
fn loading_replaces_what_was_loaded() {
    let mut level = Level::new();
    level.required_assets = vec![Sprites::Imp];
    level.load_textures(&vec![Some(Texture { slot: 2 })]);
    assert_eq!(level.state.get_texture(&Sprites::Imp), Some(Texture { slot: 2 }));
    level.required_assets = vec![Sprites::GHOST, Sprites::Goblin, Sprites::GHOST];
    level.load_textures(&vec![Some(Texture { slot: 5 }), None, Some(Texture { slot: 6 })]);
    assert_eq!(level.state.get_texture(&Sprites::Imp), None);
    assert_eq!(level.state.get_texture(&Sprites::GHOST), Some(Texture { slot: 6 }));
    assert_eq!(level.state.get_texture(&Sprites::Goblin), None);
    assert_eq!(level.state.entity_textures.len(), 2);
    level.load_textures(&vec![Some(Texture { slot: 5 }), None, None, Some(Texture { slot: 8 })]);
    assert_eq!(level.state.get_texture(&Sprites::GHOST), None);
}

#[test]
fn the_shared_facts_keep_textures_by_hand_too() {
    let mut state = LevelState::new();
    assert_eq!(state.get_texture(&Sprites::PLAYER), None);
    state.set_texture(Sprites::PLAYER, Some(Texture { slot: 3 }));
    state.set_texture(Sprites::Imp, None);
    assert_eq!(state.get_texture(&Sprites::PLAYER), Some(Texture { slot: 3 }));
    assert_eq!(state.get_texture(&Sprites::Imp), None);
    state.set_texture(Sprites::PLAYER, Some(Texture { slot: 4 }));
    assert_eq!(state.get_texture(&Sprites::PLAYER), Some(Texture { slot: 4 }));
    state.clear_textures();
    assert_eq!(state.get_texture(&Sprites::PLAYER), None);
    assert!(state.entity_textures.is_empty());
}

#[test]
fn releasing_return_toggles_the_debug_overlay() {
    let mut level = Level::new();
    level.handle_input(&InputEvent::Press(Key::Return));
    assert!(!level.state.debug);
    level.handle_input(&InputEvent::Release(Key::Return));
    assert!(level.state.debug);
    level.handle_input(&InputEvent::Release(Key::W));
    level.handle_input(&InputEvent::Other);
    assert!(level.state.debug);
    level.handle_input(&InputEvent::Release(Key::Return));
    assert!(!level.state.debug);
    level.key_up(&Key::Return);
    assert!(level.state.debug);
    level.key_down(&Key::Return);
    level.key_up(&Key::D);
    assert!(level.state.debug);
}

#[test]
fn the_level_hands_input_on_to_the_player() {
    let mut level = Level::new();
    level.handle_input(&InputEvent::Press(Key::D));
    level.handle_input(&InputEvent::Press(Key::A));
    level.handle_input(&InputEvent::Release(Key::D));
    assert_eq!(level.entities.player.get_state().x_velocity(), -1);
    level.update(1_000_000);
    assert_eq!(level.entities.player.get_position().x(), -200 * UNIT);
    assert_eq!(level.state.player_position.x(), -200 * UNIT);
    // the level's own key handlers leave the player alone
    level.key_down(&Key::S);
    level.key_up(&Key::A);
    assert_eq!(level.entities.player.get_state().x_velocity(), -1);
    assert_eq!(level.entities.player.get_state().y_velocity(), 0);
}

fn squared_distance(a: Point, b: Point) -> i128 {
    let dx = (a.x() - b.x()) as i128;
    let dy = (a.y() - b.y()) as i128;
    dx * dx + dy * dy
}

#[test]
fn enemies_close_in_and_health_never_grows() {
    let mut level = Level::new();
    level.set_player_pos(960, 540).spawn_enemies_at(&vec![
        Point::new(100, 100),
        Point::new(1800, 100),
        Point::new(100, 1000),
        Point::new(1800, 1000),
        Point::new(960, 100),
        Point::new(960, 1000),
        Point::new(300, 540),
        Point::new(1500, 540),
        Point::new(970, 545),
        Point::new(640, 360),
    ]);
    let player = level.entities.player.get_position();
    let before: Vec<i128> = level
        .entities
        .entities
        .iter()
        .map(|e| squared_distance(e.get_position(), player))
        .collect();
    let mut health = level.entities.player.get_state().hp();
    assert_eq!(health, 500);
    for _ in 0..60 {
        level.update(16_667);
        let now = level.entities.player.get_state().hp();
        assert!(now <= health);
        health = now;
    }
    let player = level.entities.player.get_position();
    assert_eq!(player.x(), 960 * UNIT);
    assert_eq!(player.y(), 540 * UNIT);
    let after: Vec<i128> = level
        .entities
        .entities
        .iter()
        .map(|e| squared_distance(e.get_position(), player))
        .collect();
    assert!(before.iter().zip(after.iter()).any(|(b, a)| a < b));
    // every enemy that started away from the player came closer
    for i in 0..8 {
        assert!(after[i] < before[i]);
    }
    // the one that started in contact hurt the player
    assert!(health < 500);
    // the enemy straight above came 50 pixels down in the second
    assert_eq!(level.entities.entities[4].get_position().x(), 960 * UNIT);
    assert_eq!(level.entities.entities[4].get_position().y(), 100 * UNIT + 50_000 * 16_667 * 60);
}
