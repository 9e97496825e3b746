//! Sprite tags and the table of image files behind them.

use vstd::prelude::*;

verus! {

/// Tag of a sprite. Entities carry the tag, never the image itself.
#[derive(Clone, Copy, Debug, PartialEq, Eq, Hash, Structural)]
pub enum Sprites {
    PLAYER,
    SKELETON,
    GHOST,
    Goblin,
    Imp,
}

impl Sprites {
    /// Number of the tag, counted from zero in the order of declaration.
    pub open spec fn number_spec(self) -> u8 {
        match self {
            Sprites::PLAYER => 0,
            Sprites::SKELETON => 1,
            Sprites::GHOST => 2,
            Sprites::Goblin => 3,
            Sprites::Imp => 4,
        }
    }

    /// Number of the tag, counted from zero in the order of declaration.
    pub fn number(&self) -> (n: u8)
        ensures
            n == self.number_spec(),
    {
        match self {
            Sprites::PLAYER => 0,
            Sprites::SKELETON => 1,
            Sprites::GHOST => 2,
            Sprites::Goblin => 3,
            Sprites::Imp => 4,
        }
    }

    /// No two tags share a number.
    pub proof fn lemma_number_is_injective(a: Sprites, b: Sprites)
        requires
            a.number_spec() == b.number_spec(),
        ensures
            a == b,
    {
    }
}

/// The image file configured for each sprite tag.
pub open spec fn sprite_path(sprite: Sprites) -> Option<&'static str> {
    match sprite {
        Sprites::PLAYER => Some("assets/sprites/player.png"),
        Sprites::SKELETON => Some("assets/sprites/skel.gif"),
        Sprites::GHOST => Some("test"),
        Sprites::Goblin => Some("test"),
        Sprites::Imp => Some("test"),
    }
}

/// Looks up the image file of a sprite tag.
pub fn get_sprite_path(sprite: &Sprites) -> (path: Option<&'static str>)
    ensures
        path == sprite_path(*sprite),
{
    match sprite {
        Sprites::PLAYER => Some("assets/sprites/player.png"),
        Sprites::SKELETON => Some("assets/sprites/skel.gif"),
        Sprites::GHOST => Some("test"),
        Sprites::Goblin => Some("test"),
        Sprites::Imp => Some("test"),
    }
}

} // verus!
