use vstd::prelude::*;
use crate::geometry::{cell, point_at, step_cell, Bounds, Direction, Point};
use crate::entities::{contains_point, meteor_at, meteor_on, occupied, Meteor, Portal};

verus! {

/// What one move of the snake came to.
#[derive(Clone, Copy, PartialEq, Eq, Debug, Structural)]
pub enum Outcome {
    Moved,
    MovedAndAte,
    Collided,
}

/// The snake: its segments head first, and its heading.
#[derive(Clone, Debug)]
pub struct Snake {
    pub body: Vec<Point>,
    pub direction: Direction,
}

/// The cell the head of `body` moves to along `dir`, before any portal.
pub open spec fn next_cell(body: Seq<Point>, dir: Direction) -> (int, int) {
    step_cell(cell(body[0]), dir)
}

/// One move of the snake: the outcome, the new body and the new portal.
///
/// A move into the body or onto a meteor collides at once. Otherwise an
/// active portal sends the head to its other endpoint and is consumed; then
/// a head outside the usable area collides. Else the head is pushed on the
/// front, and the tail is kept only when the head lands on the food.
pub open spec fn advance_spec(
    body: Seq<Point>,
    dir: Direction,
    bounds: Bounds,
    food: Point,
    meteors: Seq<Meteor>,
    portal: Portal,
) -> (Outcome, Seq<Point>, Portal) {
    let next = next_cell(body, dir);
    if occupied(body, next) || meteor_at(meteors, next) {
        (Outcome::Collided, body, portal)
    } else {
        let dest = portal.route(next);
        let portal2 = portal.after_visit(next);
        if !bounds.in_play(dest) {
            (Outcome::Collided, body, portal2)
        } else if dest == cell(food) {
            (Outcome::MovedAndAte, seq![point_at(dest)] + body, portal2)
        } else {
            (Outcome::Moved, seq![point_at(dest)] + body.drop_last(), portal2)
        }
    }
}

/// The heading after a request: a reversal is dropped, anything else taken.
pub open spec fn turned(current: Direction, requested: Direction) -> Direction {
    if current.reverses(requested) {
        current
    } else {
        requested
    }
}

impl Snake {
    /// The starting snake: three segments from (5, 5) leftwards, heading right.
    pub fn new() -> (r: Snake)
        ensures
            r.body@ == seq![Point { x: 5, y: 5 }, Point { x: 4, y: 5 }, Point { x: 3, y: 5 }],
            r.direction == Direction::Right,
    {
        Snake {
            body: vec![Point { x: 5, y: 5 }, Point { x: 4, y: 5 }, Point { x: 3, y: 5 }],
            direction: Direction::Right,
        }
    }

    /// Moves the snake one cell along its heading, resolving collisions, the
    /// portal and the food.
    pub fn move_forward(
        &mut self,
        bounds: Bounds,
        food_position: Point,
        meteors: &[Meteor],
        portal: &mut Portal,
    ) -> (r: Outcome)
        requires
            old(self).body@.len() > 0,
        ensures
            (r, final(self).body@, *final(portal)) == advance_spec(
                old(self).body@,
                old(self).direction,
                bounds,
                food_position,
                meteors@,
                *old(portal),
            ),
            final(self).direction == old(self).direction,
    {
        let head = self.body[0];
        let (nx, ny): (i64, i64) = match self.direction {
            Direction::Up => (head.x as i64, head.y as i64 - 1),
            Direction::Down => (head.x as i64, head.y as i64 + 1),
            Direction::Left => (head.x as i64 - 1, head.y as i64),
            Direction::Right => (head.x as i64 + 1, head.y as i64),
        };
        if nx < i32::MIN as i64 || nx > i32::MAX as i64 || ny < i32::MIN as i64 || ny
            > i32::MAX as i64 {
            // No point, meteor or portal lies there, and it is far outside the area.
            assert(!occupied(self.body@, (nx as int, ny as int)));
            assert(!meteor_at(meteors@, (nx as int, ny as int)));
            assert(portal.after_visit((nx as int, ny as int)) == *portal);
            return Outcome::Collided;
        }
        let mut new_head = Point { x: nx as i32, y: ny as i32 };
        if contains_point(self.body.as_slice(), new_head) || meteor_on(meteors, new_head) {
            return Outcome::Collided;
        }
        if portal.active && (new_head == portal.entry || new_head == portal.exit) {
            new_head = if new_head == portal.entry {
                portal.exit
            } else {
                portal.entry
            };
            portal.active = false;
        }
        if !bounds.contains(new_head) {
            return Outcome::Collided;
        }
        let ate_food = new_head == food_position;
        self.body.insert(0, new_head);
        if !ate_food {
            self.body.pop();
            assert(self.body@ =~= seq![new_head] + old(self).body@.drop_last());
            Outcome::Moved
        } else {
            assert(self.body@ =~= seq![new_head] + old(self).body@);
            Outcome::MovedAndAte
        }
    }

    /// Takes a new heading for the next move, unless it reverses the current one.
    pub fn change_direction(&mut self, new_direction: Direction)
        ensures
            final(self).direction == turned(old(self).direction, new_direction),
            final(self).body@ == old(self).body@,
    {
        if !self.direction.is_opposite(new_direction) {
            self.direction = new_direction;
        }
    }
}

} // verus!
