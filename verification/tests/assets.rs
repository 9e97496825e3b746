use vampire_ripoff::tools::assets::{get_sprite_path, Sprites};

#[test]
fn every_sprite_has_its_file() {
    assert_eq!(get_sprite_path(&Sprites::PLAYER), Some("assets/sprites/player.png"));
    assert_eq!(get_sprite_path(&Sprites::SKELETON), Some("assets/sprites/skel.gif"));
    assert_eq!(get_sprite_path(&Sprites::GHOST), Some("test"));
    assert_eq!(get_sprite_path(&Sprites::Goblin), Some("test"));
    assert_eq!(get_sprite_path(&Sprites::Imp), Some("test"));
}

#[test]
fn sprites_are_numbered_in_order() {
    assert_eq!(Sprites::PLAYER.number(), 0);
    assert_eq!(Sprites::SKELETON.number(), 1);
    assert_eq!(Sprites::GHOST.number(), 2);
    assert_eq!(Sprites::Goblin.number(), 3);
    assert_eq!(Sprites::Imp.number(), 4);
}
