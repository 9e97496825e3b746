//! The facts shared during a frame, and the session that owns them together
//! with the entities.

use std::collections::HashMap;
use vstd::prelude::*;
use crate::entities::enemy::{new_enemy, Enemy};
use crate::entities::entities::{
    frame_step, pictures_upto, player_input, Entities, EntitiesModel,
};
use crate::entities::entity::{Controllable, Entity};
use crate::entities::model::Body;
use crate::entities::player::{new_player, player_picture, Player};
use crate::tools::assets::{get_sprite_path, sprite_path, Sprites};
use crate::tools::chance::gen_range;
use crate::tools::fixed::UNITS_PER_PIXEL;
use crate::tools::helpers::{Coords, DrawCommand, Point, Texture};
use crate::tools::input::{InputEvent, Key};

verus! {

/// What a [`LevelState`] stands for.
pub struct LevelStateModel {
    pub debug: bool,
    pub player_position: Coords,
    pub entity_textures: Map<Sprites, Option<Texture>>,
}

impl LevelStateModel {
    /// The texture to draw for `sprite`: none where the tag has no entry,
    /// and none where its entry is empty.
    pub open spec fn texture(self, sprite: Sprites) -> Option<Texture> {
        if self.entity_textures.contains_key(sprite) {
            self.entity_textures[sprite]
        } else {
            None
        }
    }
}

/// The facts that entities share during a frame: whether the debug
/// overlay is drawn, where the player was last seen, and which textures are
/// loaded.
pub struct LevelState {
    pub debug: bool,
    pub player_position: Point,
    /// Outcome of loading each texture, by the number of its sprite tag.
    pub entity_textures: HashMap<u8, Option<Texture>>,
}

impl View for LevelState {
    type V = LevelStateModel;

    open spec fn view(&self) -> LevelStateModel {
        LevelStateModel {
            debug: self.debug,
            player_position: self.player_position@,
            entity_textures: Map::new(
                |s: Sprites| self.entity_textures@.contains_key(s.number_spec()),
                |s: Sprites| self.entity_textures@[s.number_spec()],
            ),
        }
    }
}

impl LevelState {
    /// The facts at the start of a session: no overlay, the player at the
    /// origin, nothing loaded.
    pub fn new() -> (s: Self)
        ensures
            s@ == (LevelStateModel {
                debug: false,
                player_position: Coords { x: 0, y: 0 },
                entity_textures: Map::empty(),
            }),
    {
        let s = LevelState {
            debug: false,
            player_position: Point::new(0, 0),
            entity_textures: HashMap::new(),
        };
        proof {
            assert(s@.entity_textures =~= Map::empty());
        }
        s
    }

    /// The texture to draw for a sprite tag, if one is loaded.
    pub fn get_texture(&self, num: &Sprites) -> (texture: Option<Texture>)
        ensures
            texture == self@.texture(*num),
    {
        broadcast use vstd::std_specs::hash::group_hash_axioms;

        let key: u8 = num.number();
        match self.entity_textures.get(&key) {
            Some(entry) => *entry,
            None => None,
        }
    }

    /// Stores the outcome of loading the texture of `sprite`, in place of
    /// any earlier one.
    pub fn set_texture(&mut self, sprite: Sprites, texture: Option<Texture>)
        ensures
            final(self)@ == (LevelStateModel {
                entity_textures: old(self)@.entity_textures.insert(sprite, texture),
                ..old(self)@
            }),
    {
        broadcast use vstd::std_specs::hash::group_hash_axioms;

        self.entity_textures.insert(sprite.number(), texture);
        proof {
            assert forall|s: Sprites| s.number_spec() == sprite.number_spec() implies s
                == sprite by {
                Sprites::lemma_number_is_injective(s, sprite);
            }
            assert(final(self)@.entity_textures =~= old(self)@.entity_textures.insert(
                sprite,
                texture,
            ));
        }
    }

    /// Forgets every loaded texture.
    pub fn clear_textures(&mut self)
        ensures
            final(self)@ == (LevelStateModel { entity_textures: Map::empty(), ..old(self)@ }),
    {
        broadcast use vstd::std_specs::hash::group_hash_axioms;

        self.entity_textures.clear();
        proof {
            assert(final(self)@.entity_textures =~= Map::empty());
        }
    }
}

/// Width of the world that enemies spawn in, in pixels.
pub const WORLD_WIDTH: u32 = 1920;

/// Height of the world that enemies spawn in, in pixels.
pub const WORLD_HEIGHT: u32 = 1080;

/// Number of enemies that spawn together.
pub const ENEMY_COUNT: usize = 100;

/// What a [`Level`] stands for.
pub struct LevelModel {
    pub state: LevelStateModel,
    pub entities: EntitiesModel,
    pub required_assets: Seq<Sprites>,
}

/// Whether `pos` is a whole-pixel position inside the world.
pub open spec fn in_world(pos: Coords) -> bool {
    exists|x: int, y: int|
        0 <= x < WORLD_WIDTH && 0 <= y < WORLD_HEIGHT && pos == (Coords {
            x: #[trigger] (x * UNITS_PER_PIXEL),
            y: #[trigger] (y * UNITS_PER_PIXEL),
        })
}

/// The texture entries after the first `n` of the `required` sprites have
/// been dealt with, in order: a sprite that has a file gets the outcome of
/// loading it, which is none where loading failed or no outcome is at hand;
/// a sprite without a file gets none. Later entries replace earlier ones of
/// the same sprite.
pub open spec fn textures_upto(
    required: Seq<Sprites>,
    loaded: Seq<Option<Texture>>,
    n: int,
) -> Map<Sprites, Option<Texture>>
    decreases n,
{
    if n <= 0 {
        Map::empty()
    } else {
        let sprite = required[n - 1];
        let outcome = if sprite_path(sprite).is_some() && n - 1 < loaded.len() {
            loaded[n - 1]
        } else {
            None
        };
        textures_upto(required, loaded, n - 1).insert(sprite, outcome)
    }
}

/// The level after an input event: releasing the return key toggles the
/// debug overlay, and every event goes on to the player.
pub open spec fn level_input(model: LevelModel, e: InputEvent) -> LevelModel {
    LevelModel {
        state: LevelStateModel {
            debug: if e == InputEvent::Release(Key::Return) {
                !model.state.debug
            } else {
                model.state.debug
            },
            ..model.state
        },
        entities: EntitiesModel {
            player: player_input(model.entities.player, e),
            ..model.entities
        },
        ..model
    }
}

/// A session of the game: the shared facts, the entities, and the sprites
/// that the session draws.
pub struct Level {
    pub state: LevelState,
    pub entities: Entities,
    pub required_assets: Vec<Sprites>,
}

impl View for Level {
    type V = LevelModel;

    open spec fn view(&self) -> LevelModel {
        LevelModel {
            state: self.state@,
            entities: self.entities@,
            required_assets: self.required_assets@,
        }
    }
}

impl Level {
    /// A session with the player at the origin, no other entity, nothing
    /// loaded, and the sprites of the player and of the skeleton to draw.
    pub fn new() -> (level: Self)
        ensures
            level@ == (LevelModel {
                state: LevelStateModel {
                    debug: false,
                    player_position: Coords { x: 0, y: 0 },
                    entity_textures: Map::empty(),
                },
                entities: EntitiesModel {
                    player: new_player(level@.entities.player.id, Coords { x: 0, y: 0 }),
                    entities: Seq::empty(),
                },
                required_assets: seq![Sprites::PLAYER, Sprites::SKELETON],
            }),
    {
        let mut required_assets: Vec<Sprites> = Vec::new();
        required_assets.push(Sprites::PLAYER);
        required_assets.push(Sprites::SKELETON);
        let level = Self {
            state: LevelState::new(),
            entities: Entities { player: Player::new(Point::new(0, 0)), entities: Vec::new() },
            required_assets,
        };
        proof {
            assert(level@.entities.entities =~= Seq::empty());
            assert(level@.required_assets =~= seq![Sprites::PLAYER, Sprites::SKELETON]);
        }
        level
    }

    /// Places the player at a whole-pixel position. The position that the
    /// level publishes follows at the next frame.
    pub fn set_player_pos(&mut self, x: i32, y: i32) -> (level: &mut Self)
        ensures
            level@ == (LevelModel {
                entities: EntitiesModel {
                    player: Body {
                        pos: Coords { x: x * UNITS_PER_PIXEL, y: y * UNITS_PER_PIXEL },
                        ..old(self)@.entities.player
                    },
                    ..old(self)@.entities
                },
                ..old(self)@
            }),
            *final(self) == *final(level),
    {
        self.entities.player.set_pos(Point::new(x, y));
        self
    }

    /// Replaces the other entities by `ENEMY_COUNT` enemies, each at a
    /// whole-pixel position of the world drawn at random.
    pub fn spawn_enemies(&mut self) -> (level: &mut Self)
        ensures
            level@.entities.entities.len() == ENEMY_COUNT,
            forall|i: int|
                0 <= i < ENEMY_COUNT ==> {
                    let enemy = #[trigger] level@.entities.entities[i];
                    enemy == new_enemy(enemy.id, enemy.pos) && in_world(enemy.pos)
                },
            level@.entities.player == old(self)@.entities.player,
            level@.state == old(self)@.state,
            level@.required_assets == old(self)@.required_assets,
            *final(self) == *final(level),
    {
        let mut rng = rand::thread_rng();
        let mut positions: Vec<Point> = Vec::new();
        let mut i: usize = 0;
        while i < ENEMY_COUNT
            invariant
                i <= ENEMY_COUNT,
                positions@.len() == i,
                forall|j: int| 0 <= j < i ==> in_world((#[trigger] positions@[j])@),
            decreases ENEMY_COUNT - i,
        {
            let x: u32 = gen_range(&mut rng, 0, WORLD_WIDTH);
            let y: u32 = gen_range(&mut rng, 0, WORLD_HEIGHT);
            let pos = Point::new(x as i32, y as i32);
            proof {
                assert(pos@ == (Coords {
                    x: #[trigger] (x as int * UNITS_PER_PIXEL),
                    y: #[trigger] (y as int * UNITS_PER_PIXEL),
                }));
            }
            positions.push(pos);
            i = i + 1;
        }
        self.spawn_enemies_at(&positions)
    }

    /// Replaces the other entities by one enemy at each of `positions`, in
    /// their order.
    pub fn spawn_enemies_at(&mut self, positions: &Vec<Point>) -> (level: &mut Self)
        ensures
            level@.entities.entities.len() == positions@.len(),
            forall|i: int|
                0 <= i < positions@.len() ==> {
                    let enemy = #[trigger] level@.entities.entities[i];
                    enemy == new_enemy(enemy.id, positions@[i]@)
                },
            level@.entities.player == old(self)@.entities.player,
            level@.state == old(self)@.state,
            level@.required_assets == old(self)@.required_assets,
            *final(self) == *final(level),
    {
        let mut enemies: Vec<Enemy> = Vec::new();
        let mut i: usize = 0;
        while i < positions.len()
            invariant
                i <= positions@.len(),
                enemies@.len() == i,
                forall|j: int|
                    0 <= j < i ==> (#[trigger] enemies@[j])@ == new_enemy(
                        enemies@[j]@.id,
                        positions@[j]@,
                    ),
            decreases positions@.len() - i,
        {
            enemies.push(Enemy::new(positions[i]));
            i = i + 1;
        }
        self.entities.entities = enemies;
        self
    }

    /// Takes in the outcomes of loading the textures of the required
    /// sprites: `loaded[i]` is the texture loaded from the file of the
    /// `i`-th required sprite, or nothing where loading failed. A sprite
    /// without a file, or without an outcome, is left without a texture.
    /// The entries replace whatever was there.
    pub fn load_textures(&mut self, loaded: &Vec<Option<Texture>>) -> (level: &mut Self)
        ensures
            level@ == (LevelModel {
                state: LevelStateModel {
                    entity_textures: textures_upto(
                        old(self)@.required_assets,
                        loaded@,
                        old(self)@.required_assets.len() as int,
                    ),
                    ..old(self)@.state
                },
                ..old(self)@
            }),
            *final(self) == *final(level),
    {
        self.state.clear_textures();
        let mut i: usize = 0;
        while i < self.required_assets.len()
            invariant
                i <= self.required_assets@.len(),
                self.required_assets == old(self).required_assets,
                self.entities == old(self).entities,
                self.state@ == (LevelStateModel {
                    entity_textures: textures_upto(self.required_assets@, loaded@, i as int),
                    ..old(self)@.state
                }),
            decreases self.required_assets@.len() - i,
        {
            let sprite: Sprites = self.required_assets[i];
            let outcome: Option<Texture> = match get_sprite_path(&sprite) {
                Some(_) => if i < loaded.len() {
                    loaded[i]
                } else {
                    None
                },
                None => None,
            };
            self.state.set_texture(sprite, outcome);
            i = i + 1;
        }
        self
    }

    /// Advances the session by one frame of `dt` microseconds.
    pub fn update(&mut self, dt: u64)
        ensures
            final(self)@ == (LevelModel {
                state: LevelStateModel {
                    player_position: final(self)@.entities.player.pos,
                    ..old(self)@.state
                },
                entities: frame_step(old(self)@.entities, dt as int),
                ..old(self)@
            }),
    {
        self.entities.update(dt, &mut self.state);
    }

    /// Lays out what there is to draw: the player, then every other entity
    /// in order.
    pub fn render(&self) -> (picture: Vec<DrawCommand>)
        ensures
            picture@ == player_picture(self@.entities.player, self@.state) + pictures_upto(
                self@.entities.entities,
                self@.state,
                self@.entities.entities.len() as int,
            ),
    {
        self.entities.render(&self.state)
    }
}

impl Controllable for Level {
    open spec fn after_key_down(model: LevelModel, key: Key) -> LevelModel {
        model
    }

    open spec fn after_key_up(model: LevelModel, key: Key) -> LevelModel {
        match key {
            Key::Return => LevelModel {
                state: LevelStateModel { debug: !model.state.debug, ..model.state },
                ..model
            },
            _ => model,
        }
    }

    fn handle_input(&mut self, e: &InputEvent)
        ensures
            final(self)@ == level_input(old(self)@, *e),
    {
        match e {
            InputEvent::Press(key) => {
                self.key_down(key);
            },
            InputEvent::Release(key) => {
                self.key_up(key);
            },
            InputEvent::Other => {},
        }
        self.entities.handle_input(e);
    }

    fn key_down(&mut self, key: &Key) {
    }

    fn key_up(&mut self, key: &Key) {
        match key {
            Key::Return => {
                self.state.debug = !self.state.debug;
            },
            _ => {},
        }
    }
}

} // verus!
