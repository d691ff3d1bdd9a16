use vstd::prelude::*;

verus! {

/// Width of the border that the terminal keeps on each side of the usable area.
pub const BORDER_MARGIN: i32 = 2;

/// How far inside the usable area, from each of its edges, entities spawn.
pub const SPAWN_INSET: i32 = 2;

/// A cell of the grid.
#[derive(Clone, Copy, PartialEq, Eq, Debug, Structural)]
pub struct Point {
    pub x: i32,
    pub y: i32,
}

/// The heading of the snake.
#[derive(Clone, Copy, PartialEq, Eq, Debug, Structural)]
pub enum Direction {
    Up,
    Down,
    Left,
    Right,
}

/// Outer dimensions of the terminal, read once at session start.
#[derive(Clone, Copy, PartialEq, Eq, Debug, Structural)]
pub struct Bounds {
    pub width: u16,
    pub height: u16,
}

/// A point as a pair of mathematical integers.
pub open spec fn cell(p: Point) -> (int, int) {
    (p.x as int, p.y as int)
}

/// The point that stands for a cell that fits in `i32`.
pub open spec fn point_at(c: (int, int)) -> Point {
    Point { x: c.0 as i32, y: c.1 as i32 }
}

/// The cell one unit away from `c` along `d`; no wraparound.
pub open spec fn step_cell(c: (int, int), d: Direction) -> (int, int) {
    match d {
        Direction::Up => (c.0, c.1 - 1),
        Direction::Down => (c.0, c.1 + 1),
        Direction::Left => (c.0 - 1, c.1),
        Direction::Right => (c.0 + 1, c.1),
    }
}

impl Direction {
    /// Whether `self` and `other` point in exactly opposite directions.
    pub open spec fn reverses(self, other: Direction) -> bool {
        match (self, other) {
            (Direction::Up, Direction::Down) => true,
            (Direction::Down, Direction::Up) => true,
            (Direction::Left, Direction::Right) => true,
            (Direction::Right, Direction::Left) => true,
            _ => false,
        }
    }

    /// Whether the heading runs along the x axis.
    pub open spec fn horizontal(self) -> bool {
        self == Direction::Left || self == Direction::Right
    }

    pub fn is_opposite(self, other: Direction) -> (r: bool)
        ensures
            r == self.reverses(other),
    {
        match (self, other) {
            (Direction::Up, Direction::Down) => true,
            (Direction::Down, Direction::Up) => true,
            (Direction::Left, Direction::Right) => true,
            (Direction::Right, Direction::Left) => true,
            _ => false,
        }
    }

    pub fn is_horizontal(self) -> (r: bool)
        ensures
            r == self.horizontal(),
    {
        match self {
            Direction::Left | Direction::Right => true,
            Direction::Up | Direction::Down => false,
        }
    }
}

impl Bounds {
    pub open spec fn usable_width(self) -> int {
        self.width as int - 2 * BORDER_MARGIN
    }

    pub open spec fn usable_height(self) -> int {
        self.height as int - 2 * BORDER_MARGIN
    }

    /// Whether a cell lies in the usable area, where the snake may move.
    pub open spec fn in_play(self, c: (int, int)) -> bool {
        0 <= c.0 < self.usable_width() && 0 <= c.1 < self.usable_height()
    }

    /// Whether a cell lies in the inset area where entities are spawned:
    /// `SPAWN_INSET` units in from each edge of the usable area.
    pub open spec fn in_spawn_area(self, c: (int, int)) -> bool {
        SPAWN_INSET <= c.0 < self.usable_width() - SPAWN_INSET && SPAWN_INSET <= c.1
            < self.usable_height() - SPAWN_INSET
    }

    pub fn new(width: u16, height: u16) -> (r: Bounds)
        ensures
            r.width == width,
            r.height == height,
    {
        Bounds { width, height }
    }

    /// Whether `p` lies in the usable area.
    pub fn contains(&self, p: Point) -> (r: bool)
        ensures
            r == self.in_play(cell(p)),
    {
        let w = self.width as i32 - 2 * BORDER_MARGIN;
        let h = self.height as i32 - 2 * BORDER_MARGIN;
        0 <= p.x && p.x < w && 0 <= p.y && p.y < h
    }
}

} // verus!
