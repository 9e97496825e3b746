//! The enemy: walks straight at the player and hurts it on contact.

use uuid::Uuid;
use vstd::prelude::*;
use crate::entities::entity::{pursue, Collidable, Entity, EntityState};
use crate::entities::model::{
    advanced, debug_picture, lemma_pursuit_vector_is_a_split, pursuit_vector, sprite_picture,
    Body,
};
use crate::levels::level::{LevelState, LevelStateModel};
use crate::tools::assets::Sprites;
use vstd::arithmetic::div_mod::lemma_div_multiples_vanish;
use crate::tools::fixed::{
    direction_toward, lemma_sqrt_of_square, magnitude, sign_toward, STRAIGHT_SCALE,
    UNITS_PER_PIXEL,
};
use crate::tools::helpers::{Coords, Dimensions, DrawCommand, Extent, Point};

verus! {

/// Width of an enemy, in pixels.
pub const ENEMY_WIDTH: u32 = 22;

/// Height of an enemy, in pixels.
pub const ENEMY_HEIGHT: u32 = 33;

/// Speed of an enemy, in pixels per second.
pub const ENEMY_SPEED: u32 = 50;

/// Health that an enemy starts with. Nothing hurts an enemy.
pub const ENEMY_HEALTH: i64 = 0;

/// Damage that touching an enemy deals, once a frame.
pub const ENEMY_DAMAGE: u32 = 1;

/// An enemy as it is made: at rest at `pos`, touching nothing.
pub open spec fn new_enemy(id: Uuid, pos: Coords) -> Body {
    Body {
        id,
        pos,
        bounds: Extent {
            width: ENEMY_WIDTH * UNITS_PER_PIXEL,
            height: ENEMY_HEIGHT * UNITS_PER_PIXEL,
        },
        x_velocity: 0,
        y_velocity: 0,
        speed: ENEMY_SPEED as int,
        sprite_asset_no: Sprites::SKELETON,
        colliding_entities: Seq::empty(),
        hp: ENEMY_HEALTH as int,
        damage: ENEMY_DAMAGE as int,
    }
}

/// An enemy after one frame of `dt` microseconds with the player last seen
/// at `target`: its intent points at the target on each axis, and it has
/// travelled along it with its speed split between the axes as
/// [`pursuit_vector`] says.
pub open spec fn enemy_step(body: Body, dt: int, target: Coords) -> Body {
    let x_velocity = sign_toward(body.pos.x, target.x);
    let y_velocity = sign_toward(body.pos.y, target.y);
    let split = pursuit_vector(body.pos, target, body.speed);
    Body {
        x_velocity,
        y_velocity,
        pos: Coords {
            x: advanced(body.pos.x, x_velocity, split.y, dt),
            y: advanced(body.pos.y, y_velocity, split.x, dt),
        },
        ..body
    }
}

/// What there is to draw of an enemy: its sprite, then the debug overlay.
pub open spec fn enemy_picture(body: Body, level: LevelStateModel) -> Seq<DrawCommand> {
    sprite_picture(body, level) + debug_picture(body, level)
}

/// A frame keeps an enemy the entity it was, and a valid one.
pub proof fn lemma_enemy_step_keeps_valid(body: Body, dt: int, target: Coords)
    requires
        body.valid(),
    ensures
        enemy_step(body, dt, target).valid(),
        enemy_step(body, dt, target).same_make(body),
        enemy_step(body, dt, target).hp == body.hp,
        enemy_step(body, dt, target).colliding_entities == body.colliding_entities,
{
}

/// An enemy straight above the player walks down toward it and does not
/// stray sideways: after a frame that takes time, an enemy with some speed
/// is lower than it was, and as far left or right as it was.
pub proof fn lemma_enemy_above_walks_down(body: Body, dt: int, target: Coords)
    requires
        body.valid(),
        target.on_plane(),
        body.pos.x == target.x,
        body.pos.y < target.y,
        body.speed > 0,
        dt > 0,
    ensures
        enemy_step(body, dt, target).pos.y > body.pos.y,
        enemy_step(body, dt, target).pos.x == body.pos.x,
        enemy_step(body, dt, target).y_velocity == 1,
        enemy_step(body, dt, target).x_velocity == 0,
{
    let b = target.y - body.pos.y;
    let s = body.speed * STRAIGHT_SCALE;
    assert(magnitude(body.pos.x - target.x) == 0);
    assert(magnitude(body.pos.y - target.y) == b);
    assert(0 * 0 + b * b == b * b);
    lemma_sqrt_of_square(b);
    let split = pursuit_vector(body.pos, target, body.speed);
    assert((s * b) / b == s) by {
        assert(s * b == b * s) by (nonlinear_arith);
        lemma_div_multiples_vanish(s, b);
    }
    assert(split.x == s);
    assert(s * s - s * s == 0);
    lemma_sqrt_of_square(0);
    assert(split.y == 0);
    assert(s * dt > 0) by (nonlinear_arith)
        requires
            s > 0,
            dt > 0,
    ;
    assert(1 * (s * dt) == s * dt);
    assert(0 * (0 * dt) == 0);
}

/// An enemy closes in: on each axis it ends a frame nearer to the target
/// by exactly what its share of the speed covers in the time of the frame,
/// as long as that does not carry it past the target.
pub proof fn lemma_enemy_closes_in(body: Body, dt: int, target: Coords)
    requires
        body.valid(),
        target.on_plane(),
        0 <= dt,
    ensures
        ({
            let split = pursuit_vector(body.pos, target, body.speed);
            let after = enemy_step(body, dt, target);
            &&& split.y * dt <= magnitude(body.pos.x - target.x) ==> magnitude(
                after.pos.x - target.x,
            ) == magnitude(body.pos.x - target.x) - split.y * dt
            &&& split.x * dt <= magnitude(body.pos.y - target.y) ==> magnitude(
                after.pos.y - target.y,
            ) == magnitude(body.pos.y - target.y) - split.x * dt
        }),
{
    let split = pursuit_vector(body.pos, target, body.speed);
    lemma_pursuit_vector_is_a_split(body.pos, target, body.speed);
    let vx = sign_toward(body.pos.x, target.x);
    let vy = sign_toward(body.pos.y, target.y);
    assert(0 <= split.y * dt && 0 <= split.x * dt) by (nonlinear_arith)
        requires
            0 <= split.x,
            0 <= split.y,
            0 <= dt,
    ;
    assert(vx * (split.y * dt) == if vx == 1 {
        split.y * dt
    } else if vx == -1 {
        -(split.y * dt)
    } else {
        0
    }) by (nonlinear_arith)
        requires
            -1 <= vx <= 1,
    ;
    assert(vy * (split.x * dt) == if vy == 1 {
        split.x * dt
    } else if vy == -1 {
        -(split.x * dt)
    } else {
        0
    }) by (nonlinear_arith)
        requires
            -1 <= vy <= 1,
    ;
}

/// An enemy that stands where the player stands stays there.
pub proof fn lemma_enemy_at_target_rests(body: Body, dt: int)
    requires
        body.valid(),
    ensures
        enemy_step(body, dt, body.pos).pos == body.pos,
        enemy_step(body, dt, body.pos).x_velocity == 0,
        enemy_step(body, dt, body.pos).y_velocity == 0,
{
    let split = pursuit_vector(body.pos, body.pos, body.speed);
    assert(0 * (split.y * dt) == 0);
    assert(0 * (split.x * dt) == 0);
}

/// An enemy.
#[derive(Debug)]
pub struct Enemy {
    state: EntityState,
}

impl View for Enemy {
    type V = Body;

    open spec fn view(&self) -> Body {
        self.state()@
    }
}

impl Enemy {
    /// An enemy at `pos`, with an identity of its own.
    pub fn new(pos: Point) -> (enemy: Self)
        ensures
            enemy@ == new_enemy(enemy@.id, pos@),
    {
        Self {
            state: EntityState::new(
                Uuid::new_v4(),
                pos,
                Dimensions::new(ENEMY_WIDTH, ENEMY_HEIGHT),
                ENEMY_SPEED,
                Sprites::SKELETON,
                ENEMY_HEALTH,
                ENEMY_DAMAGE,
            ),
        }
    }
}

impl Collidable for Enemy {

}

impl Entity for Enemy {
    closed spec fn state(&self) -> EntityState {
        self.state
    }

    fn get_state(&self) -> (state: &EntityState) {
        &self.state
    }

    fn get_settings_mut(&mut self) -> (state: &mut EntityState) {
        &mut self.state
    }

    fn update(&mut self, dt: u64, state: &mut LevelState)
        ensures
            final(self)@ == enemy_step(old(self)@, dt as int, old(state)@.player_position),
            *final(state) == *old(state),
    {
        let target: Point = state.player_position;
        let pos: Point = self.state.pos();
        self.state.set_x_velocity(direction_toward(pos.x(), target.x()));
        self.state.set_y_velocity(direction_toward(pos.y(), target.y()));
        let split: Point = pursue(pos, target, self.state.speed());
        self.state.integrate(split.y() as u64, split.x() as u64, dt);
    }

    fn render(&self, state: &LevelState) -> (picture: Vec<DrawCommand>)
        ensures
            picture@ == enemy_picture(self@, state@),
    {
        let hitbox: [i64; 4] = self.state.hitbox();
        let mut picture: Vec<DrawCommand> = Vec::new();
        if let Some(texture) = state.get_texture(&self.state.sprite_asset_no()) {
            picture.push(DrawCommand::Image { texture, x: hitbox[0], y: hitbox[1] });
        }
        if state.debug {
            let mut overlay = self.state.draw_hitboxes();
            picture.append(&mut overlay);
        }
        proof {
            assert(picture@ =~= enemy_picture(self@, state@));
        }
        picture
    }
}

} // verus!
