//! The record that every entity embeds, and the capabilities that entity
//! kinds implement.

use uuid::Uuid;
use vstd::prelude::*;
use vstd::arithmetic::div_mod::{lemma_div_is_ordered, lemma_div_multiples_vanish};
use crate::entities::model::{
    advanced, health_after, hitbox_overlay, pursuit_vector, rect_of, total_damage, Body,
    MARKER_REACH,
};
use crate::levels::level::LevelState;
use crate::tools::assets::Sprites;
use crate::tools::fixed::{
    axis_distance, clamp_to_plane, isqrt, lemma_sqrt_lower_bound, lemma_square_monotonic,
    on_plane, sign_toward, COORD_LIMIT, STRAIGHT_SCALE,
};
use crate::tools::helpers::{draw_rect, Color, Coords, Dimensions, DrawCommand, Point};
use crate::tools::input::{InputEvent, Key};

verus! {

/// One recorded contact: who was touched, and the damage that the touch
/// deals.
#[derive(Clone, Copy, Debug, PartialEq, Eq)]
pub struct Contact {
    pub id: Uuid,
    pub damage: u32,
}

/// The record that every entity embeds.
#[derive(Debug)]
pub struct EntityState {
    id: Uuid,
    pos: Point,
    bounds: Dimensions,
    y_velocity: i8,
    x_velocity: i8,
    speed: u32,
    sprite_asset_no: Sprites,
    colliding_entities: Vec<Contact>,
    hp: i64,
    damage: u32,
}

impl View for EntityState {
    type V = Body;

    closed spec fn view(&self) -> Body {
        Body {
            id: self.id,
            pos: self.pos@,
            bounds: self.bounds@,
            x_velocity: self.x_velocity as int,
            y_velocity: self.y_velocity as int,
            speed: self.speed as int,
            sprite_asset_no: self.sprite_asset_no,
            colliding_entities: self.colliding_entities@,
            hp: self.hp as int,
            damage: self.damage as int,
        }
    }
}

impl EntityState {
    /// What holds of every record: each intent is -1, 0 or 1.
    #[verifier::type_invariant]
    spec fn intents_are_directions(self) -> bool {
        -1 <= self.x_velocity <= 1 && -1 <= self.y_velocity <= 1
    }

    /// A record at rest, with no contacts.
    pub fn new(
        id: Uuid,
        pos: Point,
        bounds: Dimensions,
        speed: u32,
        sprite_asset_no: Sprites,
        hp: i64,
        damage: u32,
    ) -> (s: Self)
        ensures
            s@ == (Body {
                id,
                pos: pos@,
                bounds: bounds@,
                x_velocity: 0,
                y_velocity: 0,
                speed: speed as int,
                sprite_asset_no,
                colliding_entities: Seq::empty(),
                hp: hp as int,
                damage: damage as int,
            }),
    {
        EntityState {
            id,
            pos,
            bounds,
            y_velocity: 0,
            x_velocity: 0,
            speed,
            sprite_asset_no,
            colliding_entities: Vec::new(),
            hp,
            damage,
        }
    }

    /// Identity of the entity.
    pub fn id(&self) -> (v: Uuid)
        ensures
            v == self@.id,
    {
        self.id
    }

    /// Position of the centre.
    pub fn pos(&self) -> (p: Point)
        ensures
            p@ == self@.pos,
            p@.on_plane(),
    {
        proof {
            use_type_invariant(&self.pos);
            self.pos.lemma_within_plane();
        }
        self.pos
    }

    /// Extent of the hitbox and of the sprite.
    pub fn bounds(&self) -> (d: Dimensions)
        ensures
            d@ == self@.bounds,
            d@.on_plane(),
    {
        proof {
            use_type_invariant(&self.bounds);
            self.bounds.lemma_within_plane();
        }
        self.bounds
    }

    /// Horizontal intent: -1 for left, 1 for right, 0 for none.
    pub fn x_velocity(&self) -> (v: i8)
        ensures
            v == self@.x_velocity,
            -1 <= v <= 1,
    {
        proof {
            use_type_invariant(self);
        }
        self.x_velocity
    }

    /// Vertical intent: -1 for up, 1 for down, 0 for none.
    pub fn y_velocity(&self) -> (v: i8)
        ensures
            v == self@.y_velocity,
            -1 <= v <= 1,
    {
        proof {
            use_type_invariant(self);
        }
        self.y_velocity
    }

    /// Speed, in pixels per second.
    pub fn speed(&self) -> (v: u32)
        ensures
            v == self@.speed,
    {
        self.speed
    }

    /// Tag of the sprite to draw.
    pub fn sprite_asset_no(&self) -> (v: Sprites)
        ensures
            v == self@.sprite_asset_no,
    {
        self.sprite_asset_no
    }

    /// Contacts recorded since they were last cleared, oldest first.
    pub fn colliding_entities(&self) -> (v: &Vec<Contact>)
        ensures
            v@ == self@.colliding_entities,
    {
        &self.colliding_entities
    }

    /// Health points.
    pub fn hp(&self) -> (v: i64)
        ensures
            v == self@.hp,
    {
        self.hp
    }

    /// Damage dealt to whoever touches this entity.
    pub fn damage(&self) -> (v: u32)
        ensures
            v == self@.damage,
    {
        self.damage
    }

    /// Moves the entity to `pos`.
    pub fn set_pos(&mut self, pos: Point)
        ensures
            final(self)@ == (Body { pos: pos@, ..old(self)@ }),
    {
        proof {
            use_type_invariant(&*self);
        }
        self.pos = pos;
    }

    /// Sets the horizontal intent to the direction of `v`.
    pub fn set_x_velocity(&mut self, v: i8)
        ensures
            final(self)@ == (Body { x_velocity: sign_toward(0, v as int), ..old(self)@ }),
    {
        proof {
            use_type_invariant(&*self);
        }
        self.x_velocity = direction_of(v);
    }

    /// Sets the vertical intent to the direction of `v`.
    pub fn set_y_velocity(&mut self, v: i8)
        ensures
            final(self)@ == (Body { y_velocity: sign_toward(0, v as int), ..old(self)@ }),
    {
        proof {
            use_type_invariant(&*self);
        }
        self.y_velocity = direction_of(v);
    }

    /// Travels for `dt` microseconds along the intent, at `rate_x` and
    /// `rate_y` thousandths of a pixel per second on the two axes.
    pub fn integrate(&mut self, rate_x: u64, rate_y: u64, dt: u64)
        ensures
            final(self)@ == (Body {
                pos: Coords {
                    x: advanced(old(self)@.pos.x, old(self)@.x_velocity, rate_x as int, dt as int),
                    y: advanced(old(self)@.pos.y, old(self)@.y_velocity, rate_y as int, dt as int),
                },
                ..old(self)@
            }),
    {
        proof {
            use_type_invariant(&*self);
        }
        let x: i64 = travel(self.pos.x(), self.x_velocity, rate_x, dt);
        let y: i64 = travel(self.pos.y(), self.y_velocity, rate_y, dt);
        self.pos = Point::from_units(x, y);
    }

    /// Takes `amount` of damage.
    pub fn take_damage(&mut self, amount: u128)
        ensures
            final(self)@ == (Body { hp: health_after(old(self)@.hp, amount as int), ..old(self)@ }),
    {
        proof {
            use_type_invariant(&*self);
        }
        if amount > u64::MAX as u128 {
            self.hp = i64::MIN;
        } else {
            let left: i128 = self.hp as i128 - amount as i128;
            if left < i64::MIN as i128 {
                self.hp = i64::MIN;
            } else {
                self.hp = left as i64;
            }
        }
    }

    /// Records a contact, after those already recorded.
    pub fn record_contact(&mut self, contact: Contact)
        ensures
            final(self)@ == (Body {
                colliding_entities: old(self)@.colliding_entities.push(contact),
                ..old(self)@
            }),
    {
        proof {
            use_type_invariant(&*self);
        }
        let mut contacts: Vec<Contact> = Vec::new();
        std::mem::swap(&mut contacts, &mut self.colliding_entities);
        contacts.push(contact);
        self.colliding_entities = contacts;
    }

    /// Forgets all recorded contacts.
    pub fn clear_contacts(&mut self)
        ensures
            final(self)@ == (Body { colliding_entities: Seq::empty(), ..old(self)@ }),
    {
        proof {
            use_type_invariant(&*self);
        }
        self.colliding_entities = Vec::new();
    }

    /// The hitbox, as `[x, y, width, height]`.
    pub fn hitbox(&self) -> (hitbox: [i64; 4])
        ensures
            rect_of(hitbox) == self@.hitbox(),
            self@.valid(),
    {
        proof {
            use_type_invariant(self);
        }
        let pos = self.pos();
        let bounds = self.bounds();
        [
            pos.x() - (bounds.width() / 2) as i64,
            pos.y() - (bounds.height() / 2) as i64,
            bounds.width() as i64,
            bounds.height() as i64,
        ]
    }

    /// Lays out the debug overlay of the entity.
    pub fn draw_hitboxes(&self) -> (overlay: Vec<DrawCommand>)
        ensures
            overlay@ == hitbox_overlay(self@),
    {
        let pos = self.pos();
        let mut overlay: Vec<DrawCommand> = Vec::new();
        overlay.push(
            DrawCommand::Rectangle {
                color: Color::RED,
                x: pos.x() - MARKER_REACH,
                y: pos.y() - MARKER_REACH,
                width: 2 * MARKER_REACH,
                height: 2 * MARKER_REACH,
            },
        );
        let mut lines = draw_rect(Color::GREEN, self.hitbox());
        overlay.append(&mut lines);
        overlay
    }

    /// Sum of the damage of all recorded contacts.
    pub fn contact_damage(&self) -> (total: u128)
        ensures
            total == total_damage(self@.colliding_entities),
    {
        let mut total: u128 = 0;
        let mut i: usize = 0;
        while i < self.colliding_entities.len()
            invariant
                i <= self.colliding_entities.len(),
                total == total_damage(self.colliding_entities@.take(i as int)),
                total <= i * u32::MAX,
            decreases self.colliding_entities.len() - i,
        {
            proof {
                let next = self.colliding_entities@.take(i + 1);
                assert(next.drop_last() =~= self.colliding_entities@.take(i as int));
                assert(next.last() == self.colliding_entities@[i as int]);
            }
            total = total + self.colliding_entities[i].damage as u128;
            i = i + 1;
        }
        proof {
            assert(self.colliding_entities@.take(i as int) =~= self.colliding_entities@);
        }
        total
    }
}

/// Direction of `v`: -1, 0 or 1.
fn direction_of(v: i8) -> (d: i8)
    ensures
        d == sign_toward(0, v as int),
{
    if v > 0 {
        1
    } else if v < 0 {
        -1
    } else {
        0
    }
}

/// One coordinate after travel, see [`advanced`].
fn travel(c: i64, v: i8, rate: u64, dt: u64) -> (r: i64)
    requires
        on_plane(c as int),
        -1 <= v <= 1,
    ensures
        r == advanced(c as int, v as int, rate as int, dt as int),
{
    assert(rate * dt <= u64::MAX * u64::MAX) by (nonlinear_arith)
        requires
            0 <= rate <= u64::MAX,
            0 <= dt <= u64::MAX,
    ;
    let step: u128 = rate as u128 * dt as u128;
    let far: u128 = 0x8000_0000_0000_0000;
    let capped: i128 = if step > far {
        far as i128
    } else {
        step as i128
    };
    let ghost exact: int = v as int * (rate as int * dt as int);
    if v > 0 {
        assert(exact == rate as int * dt as int) by (nonlinear_arith)
            requires
                v == 1,
                exact == v as int * (rate as int * dt as int),
        ;
        clamp_to_plane(c as i128 + capped)
    } else if v < 0 {
        assert(exact == -(rate as int * dt as int)) by (nonlinear_arith)
            requires
                v == -1,
                exact == v as int * (rate as int * dt as int),
        ;
        clamp_to_plane(c as i128 - capped)
    } else {
        assert(exact == 0) by (nonlinear_arith)
            requires
                v == 0,
                exact == v as int * (rate as int * dt as int),
        ;
        clamp_to_plane(c as i128)
    }
}

/// Splits `speed` over the two axes for travel from `pos` straight toward
/// `target`, see [`pursuit_vector`].
pub fn pursue(pos: Point, target: Point, speed: u32) -> (v: Point)
    ensures
        v@ == pursuit_vector(pos@, target@, speed as int),
        0 <= v@.x <= speed * STRAIGHT_SCALE,
        0 <= v@.y <= speed * STRAIGHT_SCALE,
{
    let a: u64 = axis_distance(pos.x(), target.x());
    let b: u64 = axis_distance(pos.y(), target.y());
    assert(COORD_LIMIT == 0x4000_0000_0000_0000);
    assert(a * a + b * b <= u128::MAX && 0 <= a * a && 0 <= b * b) by (nonlinear_arith)
        requires
            0 <= a <= 0x8000_0000_0000_0000,
            0 <= b <= 0x8000_0000_0000_0000,
    ;
    let n: u128 = a as u128 * a as u128 + b as u128 * b as u128;
    let h: u64 = isqrt(n);
    let s: u64 = speed as u64 * STRAIGHT_SCALE;
    assert(s * b <= u128::MAX && s * s <= u128::MAX && 0 <= s * b) by (nonlinear_arith)
        requires
            0 <= s <= 0x400_0000_0000,
            0 <= b <= 0x8000_0000_0000_0000,
    ;
    let g: u64 = if h == 0 {
        0
    } else {
        proof {
            lemma_sqrt_lower_bound(b as int, n as int);
            assert(s * b <= s * h) by (nonlinear_arith)
                requires
                    0 <= s,
                    0 <= b <= h,
            ;
            lemma_div_is_ordered(s * b, s * h, h as int);
            assert(s * h == h * s) by (nonlinear_arith);
            lemma_div_multiples_vanish(s as int, h as int);
        }
        ((s as u128 * b as u128) / h as u128) as u64
    };
    proof {
        lemma_square_monotonic(g as int, s as int);
    }
    let rest: u128 = s as u128 * s as u128 - g as u128 * g as u128;
    let f: u64 = isqrt(rest);
    proof {
        if f > s {
            lemma_square_monotonic(s as int + 1, f as int);
            assert((s + 1) * (s + 1) > s * s) by (nonlinear_arith)
                requires
                    0 <= s,
            ;
            assert(0 <= g * g) by (nonlinear_arith);
        }
    }
    Point::from_units(g as i64, f as i64)
}

/// What every entity can do: give its record, move, be drawn.
pub trait Entity: Sized {
    /// The record of the entity.
    spec fn state(&self) -> EntityState;

    /// The record of the entity.
    fn get_state(&self) -> (state: &EntityState)
        ensures
            *state == self.state(),
    ;

    /// Position of the centre.
    fn get_position(&self) -> (pos: Point)
        ensures
            pos@ == self.state()@.pos,
            pos@.on_plane(),
    {
        self.get_state().pos()
    }

    /// Extent of the hitbox and of the sprite.
    fn get_bounds(&self) -> (bounds: Dimensions)
        ensures
            bounds@ == self.state()@.bounds,
            bounds@.on_plane(),
    {
        self.get_state().bounds()
    }

    /// Splits the entity's speed over the two axes for travel straight
    /// toward `entity2`, see [`pursuit_vector`].
    fn calculate_movement_vectors(&self, entity2: &Point) -> (v: Point)
        ensures
            v@ == pursuit_vector(self.state()@.pos, entity2@, self.state()@.speed),
            0 <= v@.x <= self.state()@.speed * STRAIGHT_SCALE,
            0 <= v@.y <= self.state()@.speed * STRAIGHT_SCALE,
    {
        let state = self.get_state();
        pursue(state.pos(), *entity2, state.speed())
    }

    /// Takes `amount` of damage.
    fn damage(&mut self, amount: &u64)
        ensures
            final(self).state()@ == (Body {
                hp: health_after(old(self).state()@.hp, *amount as int),
                ..old(self).state()@
            }),
    {
        self.get_settings_mut().take_damage(*amount as u128);
    }

    /// The record of the entity, to change it.
    fn get_settings_mut(&mut self) -> (state: &mut EntityState)
        ensures
            *state == old(self).state(),
            final(self).state() == *final(state),
    ;

    /// Moves the entity to `pos`, where its kind can be placed; a kind
    /// that cannot stays where it is.
    fn set_pos(&mut self, pos: Point)
        default_ensures
            final(self).state() == old(self).state(),
    {
    }

    /// Advances the entity by one frame of `dt` microseconds.
    fn update(&mut self, dt: u64, state: &mut LevelState)
        ensures
            final(self).state()@.same_make(old(self).state()@),
    ;

    /// Lays out what there is to draw of the entity.
    fn render(&self, state: &LevelState) -> (picture: Vec<DrawCommand>)
    ;
}

/// What an entity under the user's control can do: take input.
pub trait Controllable: View + Sized {
    /// The model after `key` went down.
    spec fn after_key_down(model: Self::V, key: Key) -> Self::V;

    /// The model after `key` came up.
    spec fn after_key_up(model: Self::V, key: Key) -> Self::V;

    /// Takes an input event: a key that went down, a key that came up, or
    /// anything else, which is ignored.
    fn handle_input(&mut self, e: &InputEvent)
        default_ensures
            final(self)@ == (match *e {
                InputEvent::Press(key) => Self::after_key_down(old(self)@, key),
                InputEvent::Release(key) => Self::after_key_up(old(self)@, key),
                InputEvent::Other => old(self)@,
            }),
    {
        match e {
            InputEvent::Press(key) => {
                self.key_down(key);
            },
            InputEvent::Release(key) => {
                self.key_up(key);
            },
            InputEvent::Other => {},
        }
    }

    /// Reacts to a key that went down.
    fn key_down(&mut self, key: &Key)
        ensures
            final(self)@ == Self::after_key_down(old(self)@, *key),
    ;

    /// Reacts to a key that came up.
    fn key_up(&mut self, key: &Key)
        ensures
            final(self)@ == Self::after_key_up(old(self)@, *key),
    ;
}

/// What an entity with a hitbox can do: tell its box, test it against
/// another, and keep a record of whom it touched.
pub trait Collidable: Entity {
    /// Records that `entity` was touched.
    fn collides<E: Entity>(&mut self, entity: &E)
        ensures
            final(self).state()@ == (Body {
                colliding_entities: old(self).state()@.colliding_entities.push(
                    entity.state()@.contact(),
                ),
                ..old(self).state()@
            }),
    {
        let other = entity.get_state();
        let contact = Contact { id: other.id(), damage: other.damage() };
        self.get_settings_mut().record_contact(contact);
    }

    /// Whether the hitbox of this entity overlaps that of `entity`.
    fn does_collide<E: Entity>(&self, entity: &E) -> (hit: bool)
        ensures
            hit == self.state()@.hitbox().overlaps(entity.state()@.hitbox()),
    {
        let a: [i64; 4] = self.get_hitbox();
        let b: [i64; 4] = entity.get_state().hitbox();
        a[0] < b[0] + b[2] && a[0] + a[2] > b[0] && a[1] < b[1] + b[3] && a[3] + a[1] > b[1]
    }

    /// The hitbox, as `[x, y, width, height]`.
    fn get_hitbox(&self) -> (hitbox: [i64; 4])
        ensures
            rect_of(hitbox) == self.state()@.hitbox(),
            self.state()@.valid(),
    {
        self.get_state().hitbox()
    }

    /// Lays out the debug overlay of the entity.
    fn draw_hitboxes(&self) -> (overlay: Vec<DrawCommand>)
        ensures
            overlay@ == hitbox_overlay(self.state()@),
    {
        self.get_state().draw_hitboxes()
    }
}

} // verus!
