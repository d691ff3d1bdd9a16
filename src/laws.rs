//! Properties that hold of every move and every delay.

use vstd::prelude::*;
use crate::geometry::{cell, Bounds, Direction, Point};
use crate::entities::{meteor_at, occupied, Meteor, Portal};
use crate::snake::{advance_spec, next_cell, Outcome};
use crate::pacing::{delay_ms, MINIMUM_DELAY};

verus! {

/// A move that does not collide keeps the length of the body, or adds
/// exactly one segment when the snake eats.
pub proof fn lemma_length_kept(
    body: Seq<Point>,
    dir: Direction,
    bounds: Bounds,
    food: Point,
    meteors: Seq<Meteor>,
    portal: Portal,
)
    requires
        body.len() > 0,
    ensures
        ({
            let (outcome, next, _) = advance_spec(body, dir, bounds, food, meteors, portal);
            &&& outcome == Outcome::Moved ==> next.len() == body.len()
            &&& outcome == Outcome::MovedAndAte ==> next.len() == body.len() + 1
            &&& outcome == Outcome::Collided ==> next == body
        }),
{
}

/// A snake whose head is at (0, 0) and that heads left leaves the usable
/// area and collides, unless a portal endpoint lies just off the edge.
pub proof fn lemma_wall_collision(
    body: Seq<Point>,
    bounds: Bounds,
    food: Point,
    meteors: Seq<Meteor>,
    portal: Portal,
)
    requires
        body.len() > 0,
        cell(body[0]) == (0int, 0int),
        !portal.triggers((-1int, 0int)),
    ensures
        advance_spec(body, Direction::Left, bounds, food, meteors, portal).0 == Outcome::Collided,
{
}

/// A move into a cell of the snake's own body always collides and leaves
/// everything as it was.
pub proof fn lemma_self_collision(
    body: Seq<Point>,
    dir: Direction,
    bounds: Bounds,
    food: Point,
    meteors: Seq<Meteor>,
    portal: Portal,
)
    requires
        body.len() > 0,
        occupied(body, next_cell(body, dir)),
    ensures
        advance_spec(body, dir, bounds, food, meteors, portal) == (Outcome::Collided, body, portal),
{
}

/// Stepping onto the entry of an active portal puts the head on its exit and
/// consumes the portal; a later step onto the old entry, with the consumed
/// portal, lands on the entry itself and leaves the portal as it is.
pub proof fn lemma_portal_one_shot(
    body: Seq<Point>,
    dir: Direction,
    later_body: Seq<Point>,
    later_dir: Direction,
    bounds: Bounds,
    food: Point,
    meteors: Seq<Meteor>,
    portal: Portal,
)
    requires
        body.len() > 0,
        later_body.len() > 0,
        portal.active,
        next_cell(body, dir) == cell(portal.entry),
        !occupied(body, cell(portal.entry)),
        !meteor_at(meteors, cell(portal.entry)),
        next_cell(later_body, later_dir) == cell(portal.entry),
    ensures
        ({
            let (outcome, next, used) = advance_spec(body, dir, bounds, food, meteors, portal);
            let (later_outcome, later_next, later_portal) = advance_spec(
                later_body,
                later_dir,
                bounds,
                food,
                meteors,
                used,
            );
            &&& !used.active
            &&& used.entry == portal.entry
            &&& used.exit == portal.exit
            &&& outcome != Outcome::Collided ==> cell(next[0]) == cell(portal.exit)
            &&& later_portal == used
            &&& later_outcome != Outcome::Collided ==> cell(later_next[0]) == cell(portal.entry)
        }),
{
}

/// For a fixed heading, a higher speed level never gives a longer delay, and
/// no delay is shorter than `MINIMUM_DELAY`.
pub proof fn lemma_delay_monotone(d: Direction, lower: int, higher: int)
    requires
        lower <= higher,
    ensures
        delay_ms(d, higher) <= delay_ms(d, lower),
        delay_ms(d, higher) >= MINIMUM_DELAY,
{
}

} // verus!
