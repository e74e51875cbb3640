use rand::Rng;
use vstd::prelude::*;

verus! {

/// Column of the right-hand wall; the left-hand wall is column 0.
pub const WIDTH: u16 = 40;

/// Row of the bottom wall; the top wall is row 0.
pub const HEIGHT: u16 = 20;

/// A cell of the grid.
#[derive(Clone, Copy, Debug, PartialEq, Eq, Structural)]
pub struct Point {
    pub x: u16,
    pub y: u16,
}

/// A unit step along one axis.
#[derive(Clone, Copy, Debug, PartialEq, Eq, Structural)]
pub enum Direction {
    Up,
    Down,
    Left,
    Right,
}

/// Horizontal component of a direction.
pub open spec fn dx(d: Direction) -> int {
    match d {
        Direction::Left => -1,
        Direction::Right => 1,
        _ => 0,
    }
}

/// Vertical component of a direction (rows grow downwards).
pub open spec fn dy(d: Direction) -> int {
    match d {
        Direction::Up => -1,
        Direction::Down => 1,
        _ => 0,
    }
}

/// A cell strictly inside the wall ring.
pub open spec fn interior(p: Point) -> bool {
    1 <= p.x < WIDTH && 1 <= p.y < HEIGHT
}

/// A cell of the wall ring.
pub open spec fn on_border(p: Point) -> bool {
    p.x == 0 || p.x == WIDTH || p.y == 0 || p.y == HEIGHT
}

/// The cell one step from `p` in direction `d`.
pub open spec fn step_point(p: Point, d: Direction) -> Point {
    Point { x: (p.x + dx(d)) as u16, y: (p.y + dy(d)) as u16 }
}

impl Point {
    pub fn new(x: u16, y: u16) -> (r: Point)
        ensures
            r == (Point { x, y }),
    {
        Point { x, y }
    }

    /// The neighbouring cell in direction `d`.
    pub fn moved(self, d: Direction) -> (r: Point)
        requires
            interior(self),
        ensures
            r == step_point(self, d),
            r.x as int == self.x + dx(d),
            r.y as int == self.y + dy(d),
    {
        match d {
            Direction::Up => Point { x: self.x, y: self.y - 1 },
            Direction::Down => Point { x: self.x, y: self.y + 1 },
            Direction::Left => Point { x: self.x - 1, y: self.y },
            Direction::Right => Point { x: self.x + 1, y: self.y },
        }
    }

    /// Whether this cell is part of the wall.
    pub fn on_border(self) -> (r: bool)
        ensures
            r == on_border(self),
    {
        self.x == 0 || self.x == WIDTH || self.y == 0 || self.y == HEIGHT
    }

    /// Whether this cell lies strictly inside the wall.
    pub fn is_interior(self) -> (r: bool)
        ensures
            r == interior(self),
    {
        1 <= self.x && self.x < WIDTH && 1 <= self.y && self.y < HEIGHT
    }
}

/// Relies on rand's `thread_rng` and `Rng::gen_range`: a value of the half-open
/// range `lo..hi`, which must not be empty (else `gen_range` panics).
#[verifier::external_body]
fn random_coord(lo: u16, hi: u16) -> (r: u16)
    requires
        lo < hi,
    ensures
        lo <= r < hi,
{
    rand::thread_rng().gen_range(lo..hi)
}

/// A food cell drawn at random, each axis on its own, strictly inside the wall.
pub fn random_food() -> (p: Point)
    ensures
        interior(p),
{
    let x = random_coord(1, WIDTH);
    let y = random_coord(1, HEIGHT);
    Point { x, y }
}

/// A step changes exactly one coordinate, by exactly one.
pub proof fn lemma_unit_step(p: Point, d: Direction)
    requires
        interior(p),
    ensures
        step_point(p, d).x as int == p.x + dx(d),
        step_point(p, d).y as int == p.y + dy(d),
        (dx(d) == 0) != (dy(d) == 0),
        -1 <= dx(d) <= 1,
        -1 <= dy(d) <= 1,
        0 <= step_point(p, d).x <= WIDTH,
        0 <= step_point(p, d).y <= HEIGHT,
{
}

} // verus!
