//! The player: steered by the keyboard, hurt by what it touches.

use uuid::Uuid;
use vstd::prelude::*;
use crate::entities::entity::{Collidable, Contact, Controllable, Entity, EntityState};
use crate::entities::model::{
    advanced, debug_picture, effective_speed, health_after, lemma_damage_adds_up,
    lemma_total_damage_is_not_negative, sprite_picture, total_damage, Body,
};
use crate::levels::level::{LevelState, LevelStateModel};
use crate::tools::assets::Sprites;
use crate::tools::fixed::{on_plane, DIAGONAL_SCALE, STRAIGHT_SCALE, UNITS_PER_PIXEL};
use crate::tools::helpers::{Color, Coords, Dimensions, DrawCommand, Extent, Point};
use crate::tools::input::Key;

verus! {

/// Width of the player, in pixels.
pub const PLAYER_WIDTH: u32 = 26;

/// Height of the player, in pixels.
pub const PLAYER_HEIGHT: u32 = 32;

/// Speed of the player, in pixels per second.
pub const PLAYER_SPEED: u32 = 200;

/// Health that the player starts with.
pub const PLAYER_HEALTH: i64 = 500;

/// The player as it is made: at rest at `pos`, in full health, touching
/// nothing, and harmless to the touch.
pub open spec fn new_player(id: Uuid, pos: Coords) -> Body {
    Body {
        id,
        pos,
        bounds: Extent {
            width: PLAYER_WIDTH * UNITS_PER_PIXEL,
            height: PLAYER_HEIGHT * UNITS_PER_PIXEL,
        },
        x_velocity: 0,
        y_velocity: 0,
        speed: PLAYER_SPEED as int,
        sprite_asset_no: Sprites::PLAYER,
        colliding_entities: Seq::empty(),
        hp: PLAYER_HEALTH as int,
        damage: 0,
    }
}

/// The player after one frame of `dt` microseconds: it has taken the damage
/// of every recorded contact, once each and whatever `dt` is, has travelled
/// along its intent, and has forgotten its contacts.
pub open spec fn player_step(body: Body, dt: int) -> Body {
    let rate = effective_speed(body.speed, body.x_velocity, body.y_velocity);
    Body {
        pos: Coords {
            x: advanced(body.pos.x, body.x_velocity, rate, dt),
            y: advanced(body.pos.y, body.y_velocity, rate, dt),
        },
        hp: health_after(body.hp, total_damage(body.colliding_entities)),
        colliding_entities: Seq::empty(),
        ..body
    }
}

/// The player after `key` went down: W and S point the vertical intent up
/// and down, A and D the horizontal intent left and right.
pub open spec fn pressed(body: Body, key: Key) -> Body {
    match key {
        Key::W => Body { y_velocity: -1, ..body },
        Key::S => Body { y_velocity: 1, ..body },
        Key::A => Body { x_velocity: -1, ..body },
        Key::D => Body { x_velocity: 1, ..body },
        _ => body,
    }
}

/// The player after `key` came up: the key's axis comes to rest, but only
/// where the intent still points the way that the key had set.
pub open spec fn released(body: Body, key: Key) -> Body {
    let stops = match key {
        Key::W => body.y_velocity < 0,
        Key::S => body.y_velocity > 0,
        Key::A => body.x_velocity < 0,
        Key::D => body.x_velocity > 0,
        _ => false,
    };
    if !stops {
        body
    } else if key == Key::W || key == Key::S {
        Body { y_velocity: 0, ..body }
    } else {
        Body { x_velocity: 0, ..body }
    }
}

/// What there is to draw of the player: its hitbox, filled blue while it
/// touches nothing and red while it does, then its sprite, then the debug
/// overlay.
pub open spec fn player_picture(body: Body, level: LevelStateModel) -> Seq<DrawCommand> {
    seq![
        DrawCommand::Rectangle {
            color: if body.colliding_entities.len() == 0 {
                Color::BLUE
            } else {
                Color::RED
            },
            x: body.hitbox().x as i64,
            y: body.hitbox().y as i64,
            width: body.hitbox().width as i64,
            height: body.hitbox().height as i64,
        },
    ] + sprite_picture(body, level) + debug_picture(body, level)
}

/// The player with `contact` recorded on it before each frame, after
/// frames of the given lengths in microseconds.
pub open spec fn frames_in_contact(body: Body, contact: Contact, dts: Seq<int>) -> Body
    decreases dts.len(),
{
    if dts.len() == 0 {
        body
    } else {
        let before = frames_in_contact(body, contact, dts.drop_last());
        player_step(
            Body { colliding_entities: before.colliding_entities.push(contact), ..before },
            dts.last(),
        )
    }
}

/// A frame keeps the player the entity it was, and a valid one.
pub proof fn lemma_player_step_keeps_valid(body: Body, dt: int)
    requires
        body.valid(),
    ensures
        player_step(body, dt).valid(),
        player_step(body, dt).same_make(body),
        player_step(body, dt).x_velocity == body.x_velocity,
        player_step(body, dt).y_velocity == body.y_velocity,
        player_step(body, dt).hp <= body.hp,
{
    lemma_total_damage_is_not_negative(body.colliding_entities);
}

/// On a diagonal course the player covers, on each axis, `0.707` of what
/// its speed covers in the time of the frame, as long as that keeps it on
/// the plane: a thousandth of a pixel per second covers one unit per
/// microsecond. That is less than the speed itself would cover.
pub proof fn lemma_diagonal_step(body: Body, dt: int)
    requires
        body.valid(),
        body.x_velocity != 0,
        body.y_velocity != 0,
        0 <= dt,
        on_plane(body.pos.x + body.x_velocity * (body.speed * 707 * dt)),
        on_plane(body.pos.y + body.y_velocity * (body.speed * 707 * dt)),
    ensures
        player_step(body, dt).pos.x - body.pos.x == body.x_velocity * (body.speed * 707 * dt),
        player_step(body, dt).pos.y - body.pos.y == body.y_velocity * (body.speed * 707 * dt),
        body.speed * 707 * dt <= body.speed * 1000 * dt,
        body.speed * dt > 0 ==> body.speed * 707 * dt < body.speed * 1000 * dt,
{
    let s = body.speed;
    assert((s * 707) * dt == s * 707 * dt);
    assert(s * 707 * dt == 707 * (s * dt) && s * 1000 * dt == 1000 * (s * dt))
        by (nonlinear_arith);
    assert(0 <= s * dt) by (nonlinear_arith)
        requires
            0 <= s,
            0 <= dt,
    ;
}

/// On a straight course the player covers what its speed covers in the
/// time of the frame, as long as that keeps it on the plane, and stays put
/// on the other axis.
pub proof fn lemma_straight_step(body: Body, dt: int)
    requires
        body.valid(),
        body.x_velocity == 0 || body.y_velocity == 0,
        0 <= dt,
        on_plane(body.pos.x + body.x_velocity * (body.speed * 1000 * dt)),
        on_plane(body.pos.y + body.y_velocity * (body.speed * 1000 * dt)),
    ensures
        player_step(body, dt).pos.x - body.pos.x == body.x_velocity * (body.speed * 1000 * dt),
        player_step(body, dt).pos.y - body.pos.y == body.y_velocity * (body.speed * 1000 * dt),
{
}

/// A key that comes up late does not undo a newer press on its axis:
/// after pressing one direction, then the opposite one, releasing the first
/// leaves the intent on the second. So pressing D, then A, then releasing D
/// leaves the horizontal intent at -1.
pub proof fn lemma_stale_release_keeps_newer_press(body: Body)
    ensures
        released(pressed(pressed(body, Key::D), Key::A), Key::D).x_velocity == -1,
        released(pressed(pressed(body, Key::A), Key::D), Key::A).x_velocity == 1,
        released(pressed(pressed(body, Key::S), Key::W), Key::S).y_velocity == -1,
        released(pressed(pressed(body, Key::W), Key::S), Key::W).y_velocity == 1,
{
}

/// Releasing a key brings its axis to rest exactly when the intent points
/// the way that the key sets, and changes nothing else.
pub proof fn lemma_release_stops_own_direction(body: Body, key: Key)
    ensures
        released(pressed(body, key), key) == match key {
            Key::W | Key::S => Body { y_velocity: 0, ..body },
            Key::A | Key::D => Body { x_velocity: 0, ..body },
            _ => body,
        },
{
}

/// Damage accrues by the frame, not by the time: a player that starts
/// without contacts and has the same contact recorded on it before each of
/// a run of frames loses the contact's damage once for each frame, however
/// long the frames are, and ends the run without contacts.
pub proof fn lemma_damage_accrues_per_frame(body: Body, contact: Contact, dts: Seq<int>)
    requires
        body.valid(),
        body.colliding_entities.len() == 0,
    ensures
        frames_in_contact(body, contact, dts).hp == health_after(
            body.hp,
            dts.len() * contact.damage,
        ),
        frames_in_contact(body, contact, dts).colliding_entities.len() == 0,
        frames_in_contact(body, contact, dts).hp <= body.hp,
        frames_in_contact(body, contact, dts).hp >= i64::MIN,
    decreases dts.len(),
{
    if dts.len() > 0 {
        let earlier = dts.drop_last();
        lemma_damage_accrues_per_frame(body, contact, earlier);
        let before = frames_in_contact(body, contact, earlier);
        let touched = before.colliding_entities.push(contact);
        assert(touched.drop_last() =~= before.colliding_entities);
        assert(total_damage(touched.drop_last()) == 0);
        assert(total_damage(touched) == contact.damage);
        assert(0 <= earlier.len() * contact.damage) by (nonlinear_arith);
        lemma_damage_adds_up(body.hp, earlier.len() * contact.damage, contact.damage as int);
        assert(earlier.len() * contact.damage + contact.damage == dts.len() * contact.damage)
            by (nonlinear_arith)
            requires
                earlier.len() + 1 == dts.len(),
        ;
    }
}

/// The player.
#[derive(Debug)]
pub struct Player {
    state: EntityState,
}

impl View for Player {
    type V = Body;

    open spec fn view(&self) -> Body {
        self.state()@
    }
}

impl Player {
    /// A player at `pos`, with an identity of its own.
    pub fn new(pos: Point) -> (player: Self)
        ensures
            player@ == new_player(player@.id, pos@),
    {
        Self {
            state: EntityState::new(
                Uuid::new_v4(),
                pos,
                Dimensions::new(PLAYER_WIDTH, PLAYER_HEIGHT),
                PLAYER_SPEED,
                Sprites::PLAYER,
                PLAYER_HEALTH,
                0,
            ),
        }
    }
}

impl Collidable for Player {

}

impl Entity for Player {
    closed spec fn state(&self) -> EntityState {
        self.state
    }

    fn get_state(&self) -> (state: &EntityState) {
        &self.state
    }

    fn get_settings_mut(&mut self) -> (state: &mut EntityState) {
        &mut self.state
    }

    fn set_pos(&mut self, pos: Point)
        ensures
            final(self)@ == (Body { pos: pos@, ..old(self)@ }),
    {
        self.state.set_pos(pos);
    }

    fn update(&mut self, dt: u64, state: &mut LevelState)
        ensures
            final(self)@ == player_step(old(self)@, dt as int),
            final(state)@ == (LevelStateModel {
                player_position: final(self)@.pos,
                ..old(state)@
            }),
    {
        let diagonal: bool = self.state.x_velocity() != 0 && self.state.y_velocity() != 0;
        let scale: u64 = if diagonal {
            DIAGONAL_SCALE
        } else {
            STRAIGHT_SCALE
        };
        let speed: u64 = self.state.speed() as u64 * scale;
        let damage: u128 = self.state.contact_damage();
        self.state.take_damage(damage);
        self.state.integrate(speed, speed, dt);
        state.player_position = self.state.pos();
        self.state.clear_contacts();
        proof {
            let before = old(self)@;
            assert(speed == effective_speed(before.speed, before.x_velocity, before.y_velocity));
        }
    }

    fn render(&self, state: &LevelState) -> (picture: Vec<DrawCommand>)
        ensures
            picture@ == player_picture(self@, state@),
    {
        let hitbox: [i64; 4] = self.state.hitbox();
        let color = if self.state.colliding_entities().len() == 0 {
            Color::BLUE
        } else {
            Color::RED
        };
        let mut picture: Vec<DrawCommand> = Vec::new();
        picture.push(
            DrawCommand::Rectangle {
                color,
                x: hitbox[0],
                y: hitbox[1],
                width: hitbox[2],
                height: hitbox[3],
            },
        );
        if let Some(texture) = state.get_texture(&self.state.sprite_asset_no()) {
            picture.push(DrawCommand::Image { texture, x: hitbox[0], y: hitbox[1] });
        }
        if state.debug {
            let mut overlay = self.state.draw_hitboxes();
            picture.append(&mut overlay);
        }
        proof {
            assert(picture@ =~= player_picture(self@, state@));
        }
        picture
    }
}

impl Controllable for Player {
    open spec fn after_key_down(model: Body, key: Key) -> Body {
        pressed(model, key)
    }

    open spec fn after_key_up(model: Body, key: Key) -> Body {
        released(model, key)
    }

    fn key_down(&mut self, key: &Key) {
        match key {
            Key::W => self.state.set_y_velocity(-1),
            Key::S => self.state.set_y_velocity(1),
            Key::A => self.state.set_x_velocity(-1),
            Key::D => self.state.set_x_velocity(1),
            _ => {},
        }
    }

    fn key_up(&mut self, key: &Key) {
        match key {
            Key::W => if self.state.y_velocity() < 0 {
                self.state.set_y_velocity(0);
            },
            Key::S => if self.state.y_velocity() > 0 {
                self.state.set_y_velocity(0);
            },
            Key::A => if self.state.x_velocity() < 0 {
                self.state.set_x_velocity(0);
            },
            Key::D => if self.state.x_velocity() > 0 {
                self.state.set_x_velocity(0);
            },
            _ => {},
        }
    }
}

} // verus!
