use vstd::prelude::*;
use crate::geometry::{cell, Bounds, Point};
use crate::snake::Snake;
use crate::spawn::{free_cell, no_room, room_for_one, spawn_cell, spawnable};

verus! {

/// The single piece of food on the board.
#[derive(Clone, Copy, PartialEq, Eq, Debug, Structural)]
pub struct Food {
    pub position: Point,
}

/// A static hazard.
#[derive(Clone, Copy, PartialEq, Eq, Debug, Structural)]
pub struct Meteor {
    pub position: Point,
}

/// A linked pair of cells; landing on either one sends the head to the other,
/// once.
#[derive(Clone, Copy, PartialEq, Eq, Debug, Structural)]
pub struct Portal {
    pub entry: Point,
    pub exit: Point,
    pub active: bool,
}

/// Whether some point of `s` is the cell `c`.
pub open spec fn occupied(s: Seq<Point>, c: (int, int)) -> bool {
    exists|i: int| 0 <= i < s.len() && #[trigger] cell(s[i]) == c
}

/// Whether some meteor of `m` stands on the cell `c`.
pub open spec fn meteor_at(m: Seq<Meteor>, c: (int, int)) -> bool {
    exists|i: int| 0 <= i < m.len() && #[trigger] cell(m[i].position) == c
}

impl Portal {
    /// Whether the portal is as spawned: active, with two distinct endpoints
    /// in the spawn area off `body`.
    pub open spec fn fresh(self, bounds: Bounds, body: Seq<Point>) -> bool {
        &&& self.active
        &&& spawnable(bounds, body, cell(self.entry))
        &&& spawnable(bounds, body, cell(self.exit))
        &&& self.entry != self.exit
    }

    /// Whether `c` is one of the two endpoints of an active portal.
    pub open spec fn triggers(self, c: (int, int)) -> bool {
        self.active && (c == cell(self.entry) || c == cell(self.exit))
    }

    /// Where a head that reaches `c` ends up.
    pub open spec fn route(self, c: (int, int)) -> (int, int) {
        if self.active && c == cell(self.entry) {
            cell(self.exit)
        } else if self.active && c == cell(self.exit) {
            cell(self.entry)
        } else {
            c
        }
    }

    /// The portal after a head has reached `c`: consumed if `c` triggered it.
    pub open spec fn after_visit(self, c: (int, int)) -> Portal {
        Portal { active: self.active && !self.triggers(c), ..self }
    }
}

impl Food {
    /// Food on a random cell of the spawn area off the snake; `None` exactly
    /// when there is no such cell.
    pub fn new(snake: &Snake, bounds: Bounds) -> (r: Option<Food>)
        ensures
            r matches Some(f) ==> spawnable(bounds, snake.body@, cell(f.position)),
            r is None <==> no_room(bounds, snake.body@),
    {
        match spawn_cell(bounds, snake.body.as_slice(), None) {
            Some(p) => Some(Food { position: p }),
            None => {
                assert forall|c: (int, int)| !#[trigger] spawnable(bounds, snake.body@, c) by {
                    assert(!free_cell(bounds, snake.body@, None, c));
                }
                None
            },
        }
    }
}

impl Meteor {
    /// A meteor on a random cell of the spawn area off the snake; `None`
    /// exactly when there is no such cell. Other meteors and the food are not
    /// avoided.
    pub fn new(bounds: Bounds, snake: &Snake) -> (r: Option<Meteor>)
        ensures
            r matches Some(m) ==> spawnable(bounds, snake.body@, cell(m.position)),
            r is None <==> no_room(bounds, snake.body@),
    {
        match spawn_cell(bounds, snake.body.as_slice(), None) {
            Some(p) => Some(Meteor { position: p }),
            None => {
                assert forall|c: (int, int)| !#[trigger] spawnable(bounds, snake.body@, c) by {
                    assert(!free_cell(bounds, snake.body@, None, c));
                }
                None
            },
        }
    }
}

impl Portal {
    /// An active portal whose two distinct endpoints lie on random cells of
    /// the spawn area off the snake; `None` exactly when fewer than two such
    /// cells exist.
    pub fn new(bounds: Bounds, snake: &Snake) -> (r: Option<Portal>)
        ensures
            r matches Some(p) ==> p.fresh(bounds, snake.body@),
            r is None <==> room_for_one(bounds, snake.body@),
    {
        let body = snake.body.as_slice();
        let entry = match spawn_cell(bounds, body, None) {
            Some(p) => p,
            None => {
                assert forall|c: (int, int)| !#[trigger] spawnable(bounds, snake.body@, c) by {
                    assert(!free_cell(bounds, snake.body@, None, c));
                }
                return None;
            },
        };
        match spawn_cell(bounds, body, Some(entry)) {
            Some(exit) => {
                assert(spawnable(bounds, snake.body@, cell(entry)) && spawnable(bounds, snake.body@, cell(exit)) && cell(entry) != cell(exit));
                Some(Portal { entry, exit, active: true })
            },
            None => {
                assert forall|c: (int, int)| #[trigger] spawnable(bounds, snake.body@, c) implies c
                    == cell(entry) by {
                    assert(!free_cell(bounds, snake.body@, Some(entry), c));
                }
                None
            },
        }
    }
}

/// Whether `p` is one of the points of `s`.
pub fn contains_point(s: &[Point], p: Point) -> (r: bool)
    ensures
        r == occupied(s@, cell(p)),
{
    let mut i: usize = 0;
    while i < s.len()
        invariant
            i <= s@.len(),
            forall|j: int| 0 <= j < i ==> cell(#[trigger] s@[j]) != cell(p),
        decreases s@.len() - i,
    {
        if s[i] == p {
            return true;
        }
        i = i + 1;
    }
    false
}

/// Whether some meteor of `m` stands on `p`.
pub fn meteor_on(m: &[Meteor], p: Point) -> (r: bool)
    ensures
        r == meteor_at(m@, cell(p)),
{
    let mut i: usize = 0;
    while i < m.len()
        invariant
            i <= m@.len(),
            forall|j: int| 0 <= j < i ==> cell(#[trigger] m@[j].position) != cell(p),
        decreases m@.len() - i,
    {
        if m[i].position == p {
            return true;
        }
        i = i + 1;
    }
    false
}

} // verus!
