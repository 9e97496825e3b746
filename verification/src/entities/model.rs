//! The mathematical model of an entity: what its record stands for, the
//! rules of health, travel, pursuit and collision stated over it, and what
//! follows from them.

use uuid::Uuid;
use vstd::prelude::*;
use vstd::arithmetic::div_mod::{lemma_div_is_ordered, lemma_div_multiples_vanish};
use crate::entities::entity::Contact;
use crate::levels::level::LevelStateModel;
use crate::tools::assets::Sprites;
use crate::tools::fixed::{
    clamp_coord, int_sqrt, lemma_int_sqrt, lemma_sqrt_lower_bound, lemma_square_monotonic,
    magnitude, DIAGONAL_SCALE, STRAIGHT_SCALE, UNITS_PER_PIXEL,
};
use crate::tools::helpers::{outline, Color, Coords, DrawCommand, Extent};

verus! {

/// An axis-aligned rectangle: its top-left corner and its extent, in units.
pub struct Rect {
    pub x: int,
    pub y: int,
    pub width: int,
    pub height: int,
}

/// What an [`EntityState`] stands for.
pub struct Body {
    pub id: Uuid,
    pub pos: Coords,
    pub bounds: Extent,
    pub x_velocity: int,
    pub y_velocity: int,
    pub speed: int,
    pub sprite_asset_no: Sprites,
    pub colliding_entities: Seq<Contact>,
    pub hp: int,
    pub damage: int,
}

/// Health left after `amount` of damage. Health may fall below zero; it
/// stops at the least value an `i64` holds.
pub open spec fn health_after(hp: int, amount: int) -> int {
    if hp - amount < i64::MIN {
        i64::MIN as int
    } else {
        hp - amount
    }
}

/// Sum of the damage of all recorded contacts.
pub open spec fn total_damage(contacts: Seq<Contact>) -> int
    decreases contacts.len(),
{
    if contacts.len() == 0 {
        0
    } else {
        total_damage(contacts.drop_last()) + contacts.last().damage
    }
}

/// Speed along each axis, in thousandths of a pixel per second, of an
/// entity that steers by its intent alone: `0.707` of its speed when it
/// travels on a diagonal, all of it otherwise.
pub open spec fn effective_speed(speed: int, x_velocity: int, y_velocity: int) -> int {
    if x_velocity != 0 && y_velocity != 0 {
        speed * DIAGONAL_SCALE
    } else {
        speed * STRAIGHT_SCALE
    }
}

/// A coordinate `c` after `dt` microseconds of travel in direction `v` at
/// `rate` thousandths of a pixel per second. Travel stops at the edge of the
/// plane.
pub open spec fn advanced(c: int, v: int, rate: int, dt: int) -> int {
    clamp_coord(c + v * (rate * dt))
}

/// The split of `speed` over the two axes for travel from `pos` straight
/// toward `target`, in thousandths of a pixel per second. `x` holds the
/// vertical share, `speed * |dy| / distance`, and `y` the horizontal share,
/// what is left of `speed` beside it. At the target itself the vertical
/// share is zero.
pub open spec fn pursuit_vector(pos: Coords, target: Coords, speed: int) -> Coords {
    let a = magnitude(pos.x - target.x);
    let b = magnitude(pos.y - target.y);
    let h = int_sqrt(a * a + b * b);
    let s = speed * STRAIGHT_SCALE;
    let g = if h == 0 {
        0
    } else {
        (s * b) / h
    };
    Coords { x: g, y: int_sqrt(s * s - g * g) }
}

impl Body {
    /// Whether the model is one that an [`EntityState`] can stand for.
    pub open spec fn valid(self) -> bool {
        &&& self.pos.on_plane()
        &&& self.bounds.on_plane()
        &&& -1 <= self.x_velocity <= 1
        &&& -1 <= self.y_velocity <= 1
        &&& 0 <= self.speed <= u32::MAX
        &&& i64::MIN <= self.hp <= i64::MAX
        &&& 0 <= self.damage <= u32::MAX
    }

    /// Whether `other` is the same entity with the same make: identity,
    /// bounds, speed, sprite and contact damage never change.
    pub open spec fn same_make(self, other: Body) -> bool {
        &&& self.id == other.id
        &&& self.bounds == other.bounds
        &&& self.speed == other.speed
        &&& self.sprite_asset_no == other.sprite_asset_no
        &&& self.damage == other.damage
    }

    /// The box that collisions are tested on: the bounds, centred on the
    /// position.
    pub open spec fn hitbox(self) -> Rect {
        Rect {
            x: self.pos.x - self.bounds.width / 2,
            y: self.pos.y - self.bounds.height / 2,
            width: self.bounds.width,
            height: self.bounds.height,
        }
    }

    /// The contact that touching this entity leaves on another.
    pub open spec fn contact(self) -> Contact {
        Contact { id: self.id, damage: self.damage as u32 }
    }
}

impl Rect {
    /// Whether two boxes overlap. Boxes that only touch along an edge do
    /// not.
    pub open spec fn overlaps(self, other: Rect) -> bool {
        &&& self.x < other.x + other.width
        &&& self.x + self.width > other.x
        &&& self.y < other.y + other.height
        &&& self.y + self.height > other.y
    }

    /// Whether the point `(px, py)` lies in the box, whose right and bottom
    /// edges do not belong to it.
    pub open spec fn contains(self, px: int, py: int) -> bool {
        &&& self.x <= px < self.x + self.width
        &&& self.y <= py < self.y + self.height
    }
}

/// The pursuit vector splits the speed: neither share is negative, neither
/// exceeds the speed, and the squares of the two make up the square of the
/// speed, short by less than what rounding the horizontal share down by one
/// thousandth costs.
pub proof fn lemma_pursuit_vector_is_a_split(pos: Coords, target: Coords, speed: int)
    requires
        0 <= speed,
    ensures
        ({
            let split = pursuit_vector(pos, target, speed);
            let s = speed * STRAIGHT_SCALE;
            &&& 0 <= split.x <= s
            &&& 0 <= split.y <= s
            &&& split.x * split.x + split.y * split.y <= s * s
            &&& s * s < split.x * split.x + (split.y + 1) * (split.y + 1)
        }),
{
    let a = magnitude(pos.x - target.x);
    let b = magnitude(pos.y - target.y);
    let n = a * a + b * b;
    assert(0 <= a * a && 0 <= b * b) by (nonlinear_arith);
    lemma_int_sqrt(n);
    let h = int_sqrt(n);
    let s = speed * STRAIGHT_SCALE;
    let g = pursuit_vector(pos, target, speed).x;
    if h != 0 {
        lemma_sqrt_lower_bound(b, n);
        assert(0 <= s * b <= s * h) by (nonlinear_arith)
            requires
                0 <= s,
                0 <= b <= h,
        ;
        lemma_div_is_ordered(s * b, s * h, h);
        lemma_div_is_ordered(0, s * b, h);
        assert(s * h == h * s) by (nonlinear_arith);
        lemma_div_multiples_vanish(s, h);
    }
    lemma_square_monotonic(g, s);
    assert(0 <= g * g) by (nonlinear_arith);
    lemma_int_sqrt(s * s - g * g);
    let f = int_sqrt(s * s - g * g);
    if f > s {
        lemma_square_monotonic(s + 1, f);
        assert((s + 1) * (s + 1) > s * s) by (nonlinear_arith)
            requires
                0 <= s,
        ;
    }
}

/// Boxes that share a point overlap, whatever their extent.
pub proof fn lemma_boxes_sharing_a_point_overlap(a: Rect, b: Rect, px: int, py: int)
    requires
        a.contains(px, py),
        b.contains(px, py),
    ensures
        a.overlaps(b),
{
}

/// Two boxes of positive extent overlap exactly when some point lies in
/// both of them, the right and bottom edges of a box not belonging to it.
pub proof fn lemma_overlap_is_intersection(a: Rect, b: Rect)
    requires
        a.width > 0,
        a.height > 0,
        b.width > 0,
        b.height > 0,
    ensures
        a.overlaps(b) <==> exists|px: int, py: int|
            #[trigger] a.contains(px, py) && b.contains(px, py),
{
    if a.overlaps(b) {
        let px = if a.x >= b.x {
            a.x
        } else {
            b.x
        };
        let py = if a.y >= b.y {
            a.y
        } else {
            b.y
        };
        assert(a.contains(px, py) && b.contains(px, py));
    }
}

/// Boxes that touch along an edge, one beginning exactly where the other
/// ends, do not overlap.
pub proof fn lemma_touching_boxes_do_not_overlap(a: Rect, b: Rect)
    requires
        b.x == a.x + a.width || a.x == b.x + b.width || b.y == a.y + a.height || a.y == b.y
            + b.height,
    ensures
        !a.overlaps(b),
{
}

/// Whether two boxes overlap does not depend on which is asked.
pub proof fn lemma_overlap_is_symmetric(a: Rect, b: Rect)
    ensures
        a.overlaps(b) == b.overlaps(a),
{
}

/// Recorded contacts never heal: their damage adds up to no less than
/// zero.
pub proof fn lemma_total_damage_is_not_negative(contacts: Seq<Contact>)
    ensures
        0 <= total_damage(contacts),
    decreases contacts.len(),
{
    if contacts.len() > 0 {
        lemma_total_damage_is_not_negative(contacts.drop_last());
    }
}

/// Damage adds up: taking `first` and then `second` leaves the health that
/// taking both at once leaves.
pub proof fn lemma_damage_adds_up(hp: int, first: int, second: int)
    requires
        i64::MIN <= hp,
        0 <= first,
        0 <= second,
    ensures
        health_after(health_after(hp, first), second) == health_after(hp, first + second),
{
}

/// The rectangle that an array `[x, y, width, height]` describes.
pub open spec fn rect_of(a: [i64; 4]) -> Rect {
    Rect { x: a[0] as int, y: a[1] as int, width: a[2] as int, height: a[3] as int }
}

/// Half the side of the square that marks an entity's centre, in units.
pub const MARKER_REACH: i64 = 2 * UNITS_PER_PIXEL;

/// The debug overlay of an entity: a small red square on its centre, then
/// the outline of its hitbox in green.
pub open spec fn hitbox_overlay(body: Body) -> Seq<DrawCommand> {
    let hitbox = body.hitbox();
    seq![
        DrawCommand::Rectangle {
            color: Color::RED,
            x: (body.pos.x - MARKER_REACH) as i64,
            y: (body.pos.y - MARKER_REACH) as i64,
            width: (2 * MARKER_REACH) as i64,
            height: (2 * MARKER_REACH) as i64,
        },
    ] + outline(Color::GREEN, hitbox.x, hitbox.y, hitbox.width, hitbox.height)
}

/// The sprite of an entity, drawn with its top-left corner on that of the
/// hitbox; nothing where no texture is loaded for it.
pub open spec fn sprite_picture(body: Body, level: LevelStateModel) -> Seq<DrawCommand> {
    match level.texture(body.sprite_asset_no) {
        Some(texture) => seq![
            DrawCommand::Image {
                texture,
                x: body.hitbox().x as i64,
                y: body.hitbox().y as i64,
            },
        ],
        None => Seq::empty(),
    }
}

/// The debug overlay where the level asks for it, nothing where it does
/// not.
pub open spec fn debug_picture(body: Body, level: LevelStateModel) -> Seq<DrawCommand> {
    if level.debug {
        hitbox_overlay(body)
    } else {
        Seq::empty()
    }
}

} // verus!
