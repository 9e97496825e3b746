//! Points and sizes of the plane, and what there is to draw on it.

use vstd::prelude::*;
use crate::tools::fixed::{clamp_coord, clamp_length, on_plane, COORD_LIMIT, UNITS_PER_PIXEL};

verus! {

/// What a [`Point`] stands for: a pair of coordinates, in units.
pub struct Coords {
    pub x: int,
    pub y: int,
}

/// What a [`Dimensions`] stands for: a width and a height, in units.
pub struct Extent {
    pub width: int,
    pub height: int,
}

impl Coords {
    /// Whether both coordinates lie on the plane.
    pub open spec fn on_plane(self) -> bool {
        on_plane(self.x) && on_plane(self.y)
    }
}

impl Extent {
    /// Whether both lengths are ones the plane can hold.
    pub open spec fn on_plane(self) -> bool {
        0 <= self.width <= COORD_LIMIT && 0 <= self.height <= COORD_LIMIT
    }
}

/// A point of the plane. Each coordinate is within `COORD_LIMIT` of zero.
#[derive(Clone, Copy, Debug)]
pub struct Point {
    x: i64,
    y: i64,
}

impl View for Point {
    type V = Coords;

    closed spec fn view(&self) -> Coords {
        Coords { x: self.x as int, y: self.y as int }
    }
}

impl Point {
    /// What holds of every point: both coordinates lie on the plane.
    #[verifier::type_invariant]
    pub closed spec fn within_plane(self) -> bool {
        on_plane(self.x as int) && on_plane(self.y as int)
    }

    /// A point that keeps within the plane has coordinates of the plane.
    pub proof fn lemma_within_plane(self)
        requires
            self.within_plane(),
        ensures
            self@.on_plane(),
    {
    }

    /// The point at a whole-pixel position.
    pub fn new(x: i32, y: i32) -> (p: Self)
        ensures
            p@ == (Coords { x: x * UNITS_PER_PIXEL, y: y * UNITS_PER_PIXEL }),
    {
        let scale: i64 = UNITS_PER_PIXEL;
        assert(on_plane(x * scale) && on_plane(y * scale)) by (nonlinear_arith)
            requires
                scale == 1_000_000_000,
                i32::MIN <= x <= i32::MAX,
                i32::MIN <= y <= i32::MAX,
        ;
        Point { x: x as i64 * scale, y: y as i64 * scale }
    }

    /// The point at a position given in units. A coordinate beyond the
    /// plane is moved onto its edge.
    pub fn from_units(x: i64, y: i64) -> (p: Self)
        ensures
            p@ == (Coords { x: clamp_coord(x as int), y: clamp_coord(y as int) }),
    {
        Point { x: clamp_unit(x), y: clamp_unit(y) }
    }

    /// Horizontal coordinate, in units.
    pub fn x(&self) -> (v: i64)
        ensures
            v == self@.x,
            self@.on_plane(),
    {
        proof {
            use_type_invariant(self);
        }
        self.x
    }

    /// Vertical coordinate, in units.
    pub fn y(&self) -> (v: i64)
        ensures
            v == self@.y,
            self@.on_plane(),
    {
        proof {
            use_type_invariant(self);
        }
        self.y
    }
}

/// A width and a height. Neither exceeds `COORD_LIMIT`.
#[derive(Clone, Copy, Debug)]
pub struct Dimensions {
    width: u64,
    height: u64,
}

impl View for Dimensions {
    type V = Extent;

    closed spec fn view(&self) -> Extent {
        Extent { width: self.width as int, height: self.height as int }
    }
}

impl Dimensions {
    /// What holds of every size: the plane can hold both lengths.
    #[verifier::type_invariant]
    pub closed spec fn within_plane(self) -> bool {
        self.width <= COORD_LIMIT && self.height <= COORD_LIMIT
    }

    /// A size that keeps within the plane has lengths that the plane holds.
    pub proof fn lemma_within_plane(self)
        requires
            self.within_plane(),
        ensures
            self@.on_plane(),
    {
    }

    /// A size of whole pixels.
    pub fn new(width: u32, height: u32) -> (d: Self)
        ensures
            d@ == (Extent { width: width * UNITS_PER_PIXEL, height: height * UNITS_PER_PIXEL }),
    {
        let scale: u64 = UNITS_PER_PIXEL as u64;
        assert(width * scale <= COORD_LIMIT && height * scale <= COORD_LIMIT) by (nonlinear_arith)
            requires
                scale == 1_000_000_000,
                width <= u32::MAX,
                height <= u32::MAX,
                COORD_LIMIT == 4_611_686_018_427_387_904,
        ;
        Dimensions { width: width as u64 * scale, height: height as u64 * scale }
    }

    /// A size given in units. A length beyond what the plane can hold is
    /// cut down to `COORD_LIMIT`.
    pub fn from_units(width: u64, height: u64) -> (d: Self)
        ensures
            d@ == (Extent { width: clamp_length(width as int), height: clamp_length(height as int) }),
    {
        Dimensions { width: clamp_size(width), height: clamp_size(height) }
    }

    /// Width, in units.
    pub fn width(&self) -> (v: u64)
        ensures
            v == self@.width,
            self@.on_plane(),
    {
        proof {
            use_type_invariant(self);
        }
        self.width
    }

    /// Height, in units.
    pub fn height(&self) -> (v: u64)
        ensures
            v == self@.height,
            self@.on_plane(),
    {
        proof {
            use_type_invariant(self);
        }
        self.height
    }
}

fn clamp_unit(v: i64) -> (r: i64)
    ensures
        r == clamp_coord(v as int),
{
    if v < -COORD_LIMIT {
        -COORD_LIMIT
    } else if v > COORD_LIMIT {
        COORD_LIMIT
    } else {
        v
    }
}

fn clamp_size(v: u64) -> (r: u64)
    ensures
        r == clamp_length(v as int),
{
    if v > COORD_LIMIT as u64 {
        COORD_LIMIT as u64
    } else {
        v
    }
}

/// A colour to draw with.
#[derive(Clone, Copy, Debug, PartialEq, Eq, Hash, Structural)]
pub enum Color {
    BLUE,
    RED,
    GREEN,
}

/// Handle of a loaded texture: its slot in the store of whoever draws.
#[derive(Clone, Copy, Debug, PartialEq, Eq, Hash, Structural)]
pub struct Texture {
    pub slot: u32,
}

/// One thing to draw. All positions and lengths are in units.
#[derive(Clone, Copy, Debug, PartialEq, Eq, Hash, Structural)]
pub enum DrawCommand {
    /// A filled rectangle with its top-left corner at `(x, y)`.
    Rectangle { color: Color, x: i64, y: i64, width: i64, height: i64 },
    /// A texture with its top-left corner at `(x, y)`.
    Image { texture: Texture, x: i64, y: i64 },
    /// A thin line between two points.
    Line { color: Color, from_x: i64, from_y: i64, to_x: i64, to_y: i64 },
}

/// The line from the point `from` to the point `to`.
pub open spec fn line_between(color: Color, from: (int, int), to: (int, int)) -> DrawCommand {
    DrawCommand::Line {
        color,
        from_x: from.0 as i64,
        from_y: from.1 as i64,
        to_x: to.0 as i64,
        to_y: to.1 as i64,
    }
}

/// The lines that join each point of `points` to the one before it,
/// followed by the line that closes a four-cornered figure, from the fourth
/// point to the first.
pub open spec fn joined(color: Color, points: Seq<(int, int)>) -> Seq<DrawCommand> {
    Seq::new(
        points.len(),
        |i: int|
            if i + 1 < points.len() {
                line_between(color, points[i + 1], points[i])
            } else {
                line_between(color, points[3], points[0])
            },
    )
}

/// The corners of a rectangle, clockwise on the screen from the top left.
pub open spec fn corners(x: int, y: int, width: int, height: int) -> Seq<(int, int)> {
    seq![(x, y), (x + width, y), (x + width, y + height), (x, y + height)]
}

/// The outline of a rectangle: four lines, one along each side.
pub open spec fn outline(color: Color, x: int, y: int, width: int, height: int) -> Seq<
    DrawCommand,
> {
    joined(color, corners(x, y, width, height))
}

/// Lays out the outline of the rectangle `rect`, given as `[x, y, width,
/// height]`.
pub fn draw_rect(color: Color, rect: [i64; 4]) -> (lines: Vec<DrawCommand>)
    requires
        i64::MIN <= rect[0] + rect[2] <= i64::MAX,
        i64::MIN <= rect[1] + rect[3] <= i64::MAX,
    ensures
        lines@ == outline(color, rect[0] as int, rect[1] as int, rect[2] as int, rect[3] as int),
{
    let x: i64 = rect[0];
    let y: i64 = rect[1];
    let width: i64 = rect[2];
    let height: i64 = rect[3];
    let mut points: Vec<(i64, i64)> = Vec::new();
    points.push((x, y));
    points.push((x + width, y));
    points.push((x + width, y + height));
    points.push((x, y + height));
    let lines = draw_points(color, &points);
    proof {
        assert(corners(x as int, y as int, width as int, height as int) =~= points@.map_values(
            |p: (i64, i64)| (p.0 as int, p.1 as int),
        ));
    }
    lines
}

/// Lays out the lines through `points`, see [`joined`].
fn draw_points(color: Color, points: &Vec<(i64, i64)>) -> (lines: Vec<DrawCommand>)
    requires
        points@.len() == 0 || points@.len() >= 4,
    ensures
        lines@ == joined(color, points@.map_values(|p: (i64, i64)| (p.0 as int, p.1 as int))),
{
    let ghost model = points@.map_values(|p: (i64, i64)| (p.0 as int, p.1 as int));
    let mut lines: Vec<DrawCommand> = Vec::new();
    let mut i: usize = 0;
    while i < points.len()
        invariant
            i <= points@.len(),
            points@.len() == 0 || points@.len() >= 4,
            model == points@.map_values(|p: (i64, i64)| (p.0 as int, p.1 as int)),
            lines@ == joined(color, model).take(i as int),
        decreases points@.len() - i,
    {
        let (from, to) = if i + 1 < points.len() {
            (points[i + 1], points[i])
        } else {
            (points[3], points[0])
        };
        lines.push(
            DrawCommand::Line { color, from_x: from.0, from_y: from.1, to_x: to.0, to_y: to.1 },
        );
        proof {
            assert(lines@ =~= joined(color, model).take(i + 1));
        }
        i = i + 1;
    }
    proof {
        assert(joined(color, model).take(points@.len() as int) =~= joined(color, model));
    }
    lines
}

} // verus!
