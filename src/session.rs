use vstd::prelude::*;
use crate::geometry::{cell, Bounds, Direction, Point};
use crate::entities::{Food, Meteor, Portal};
use crate::snake::{advance_spec, turned, Outcome, Snake};
use crate::spawn::{no_room, room_for_one, spawnable};

verus! {

/// How many meteors a session starts with.
pub const METEOR_COUNT: usize = 5;

/// How many points of score make one speed level.
pub const POINTS_PER_LEVEL: u64 = 5;

/// Whether the game goes on.
#[derive(Clone, Copy, PartialEq, Eq, Debug, Structural)]
pub enum Phase {
    Running,
    GameOver,
}

/// What the player asked for during one tick.
#[derive(Clone, Copy, PartialEq, Eq, Debug, Structural)]
pub enum Input {
    Turn(Direction),
    Quit,
    Idle,
}

/// What one tick came to: the move's outcome (none when the tick did not
/// move the snake), and whether a fresh portal was spawned.
#[derive(Clone, Copy, PartialEq, Eq, Debug, Structural)]
pub struct Tick {
    pub outcome: Option<Outcome>,
    pub portal_spawned: bool,
}

/// The whole world state of one game.
#[derive(Clone, Debug)]
pub struct Session {
    pub bounds: Bounds,
    pub snake: Snake,
    pub food: Food,
    pub meteors: Vec<Meteor>,
    pub portal: Portal,
    pub score: u64,
    pub speed_level: u64,
    pub phase: Phase,
}

/// The body of the snake at the start of a session.
pub open spec fn start_body() -> Seq<Point> {
    seq![Point { x: 5, y: 5 }, Point { x: 4, y: 5 }, Point { x: 3, y: 5 }]
}

/// The heading the snake moves along after `input`.
pub open spec fn heading_after(current: Direction, input: Input) -> Direction {
    match input {
        Input::Turn(d) => turned(current, d),
        _ => current,
    }
}

/// The speed level that belongs to a score: one at first, one more per
/// `POINTS_PER_LEVEL` points.
pub open spec fn level_for(score: int) -> int {
    1 + score / POINTS_PER_LEVEL as int
}

impl Session {
    /// The session's invariant: the snake has a head, each point of score
    /// came with a segment, and the speed level follows the score.
    pub open spec fn wf(&self) -> bool {
        &&& self.snake.body@.len() > 0
        &&& self.score <= self.snake.body@.len()
        &&& self.speed_level == level_for(self.score as int)
    }

    /// The move that a tick with `input` makes from this state.
    pub open spec fn move_for(&self, input: Input) -> (Outcome, Seq<Point>, Portal) {
        advance_spec(
            self.snake.body@,
            heading_after(self.snake.direction, input),
            self.bounds,
            self.food.position,
            self.meteors@,
            self.portal,
        )
    }

    /// Whether a tick with `input` moves the snake.
    pub open spec fn moves_on(&self, input: Input) -> bool {
        self.phase == Phase::Running && input != Input::Quit
    }

    /// A new session on the given terminal: the starting snake, food,
    /// `METEOR_COUNT` meteors and an active portal, all off the snake, with
    /// score 0 and speed level 1. `None` exactly when the spawn area has
    /// fewer than two cells off the starting snake.
    pub fn new(bounds: Bounds) -> (r: Option<Session>)
        ensures
            r is None <==> room_for_one(bounds, start_body()),
            r matches Some(s) ==> {
                &&& s.wf()
                &&& s.bounds == bounds
                &&& s.snake.body@ == start_body()
                &&& s.snake.direction == Direction::Right
                &&& spawnable(bounds, start_body(), cell(s.food.position))
                &&& s.meteors@.len() == METEOR_COUNT
                &&& forall|i: int|
                    0 <= i < s.meteors@.len() ==> spawnable(
                        bounds,
                        start_body(),
                        cell(#[trigger] s.meteors@[i].position),
                    )
                &&& s.portal.fresh(bounds, start_body())
                &&& s.score == 0
                &&& s.speed_level == 1
                &&& s.phase == Phase::Running
            },
    {
        let snake = Snake::new();
        let food = match Food::new(&snake, bounds) {
            Some(f) => f,
            None => return None,
        };
        let mut meteors: Vec<Meteor> = Vec::new();
        let mut i: usize = 0;
        while i < METEOR_COUNT
            invariant
                i <= METEOR_COUNT,
                meteors@.len() == i,
                snake.body@ == start_body(),
                spawnable(bounds, start_body(), cell(food.position)),
                forall|j: int|
                    0 <= j < meteors@.len() ==> spawnable(
                        bounds,
                        start_body(),
                        cell(#[trigger] meteors@[j].position),
                    ),
            decreases METEOR_COUNT - i,
        {
            match Meteor::new(bounds, &snake) {
                Some(m) => meteors.push(m),
                None => {
                    assert(!spawnable(bounds, start_body(), cell(food.position)));
                    return None;
                },
            }
            i = i + 1;
        }
        let portal = match Portal::new(bounds, &snake) {
            Some(p) => p,
            None => return None,
        };
        Some(
            Session {
                bounds,
                snake,
                food,
                meteors,
                portal,
                score: 0,
                speed_level: 1,
                phase: Phase::Running,
            },
        )
    }
    /// Runs one tick.
    ///
    /// A finished game stays as it is. `Quit` ends the game without a move.
    /// Otherwise a requested turn is applied (a reversal is dropped) and the
    /// snake moves as `advance_spec` says. A collision ends the game. Eating
    /// adds one point, raises the speed level on every multiple of
    /// `POINTS_PER_LEVEL`, and puts new food off the grown body; with no free
    /// cell left for it the game ends. While the game goes on and
    /// `portal_due` is set, a consumed portal is replaced by a fresh one; an
    /// active portal is never replaced.
    pub fn step(&mut self, input: Input, portal_due: bool) -> (r: Tick)
        requires
            old(self).wf(),
        ensures
            final(self).wf(),
            !old(self).moves_on(input) ==> {
                &&& r == Tick { outcome: None, portal_spawned: false }
                &&& final(self).phase == Phase::GameOver
                &&& final(self).snake == old(self).snake
                &&& final(self).food == old(self).food
                &&& final(self).portal == old(self).portal
                &&& final(self).score == old(self).score
                &&& final(self).speed_level == old(self).speed_level
            },
            final(self).bounds == old(self).bounds,
            final(self).meteors@ == old(self).meteors@,
            old(self).moves_on(input) ==> {
                let (outcome, body, portal) = old(self).move_for(input);
                &&& r.outcome == Some(outcome)
                &&& final(self).snake.body@ == body
                &&& final(self).snake.direction == heading_after(old(self).snake.direction, input)
                &&& outcome != Outcome::MovedAndAte ==> {
                    &&& final(self).score == old(self).score
                    &&& final(self).speed_level == old(self).speed_level
                    &&& final(self).food == old(self).food
                }
                &&& outcome == Outcome::MovedAndAte ==> {
                    &&& final(self).score == old(self).score + 1
                    &&& final(self).speed_level == old(self).speed_level + if final(self).score
                        % POINTS_PER_LEVEL == 0 {
                        1int
                    } else {
                        0int
                    }
                    &&& no_room(old(self).bounds, body) ==> {
                        &&& final(self).phase == Phase::GameOver
                        &&& final(self).food == old(self).food
                    }
                    &&& !no_room(old(self).bounds, body) ==> spawnable(
                        old(self).bounds,
                        body,
                        cell(final(self).food.position),
                    )
                }
                &&& (outcome == Outcome::Collided || (outcome == Outcome::MovedAndAte && no_room(
                    old(self).bounds,
                    body,
                ))) <==> final(self).phase == Phase::GameOver
                &&& (final(self).phase == Phase::Running && portal_due && !portal.active)
                    ==> if r.portal_spawned {
                    final(self).portal.fresh(old(self).bounds, body)
                } else {
                    final(self).portal == portal && room_for_one(old(self).bounds, body)
                }
                &&& !(final(self).phase == Phase::Running && portal_due && !portal.active) ==> {
                    &&& final(self).portal == portal
                    &&& !r.portal_spawned
                }
            },
    {
        if self.phase == Phase::GameOver {
            return Tick { outcome: None, portal_spawned: false };
        }
        match input {
            Input::Quit => {
                self.phase = Phase::GameOver;
                return Tick { outcome: None, portal_spawned: false };
            },
            Input::Turn(d) => self.snake.change_direction(d),
            Input::Idle => {},
        }
        let outcome = self.snake.move_forward(
            self.bounds,
            self.food.position,
            self.meteors.as_slice(),
            &mut self.portal,
        );
        match outcome {
            Outcome::Collided => {
                self.phase = Phase::GameOver;
                return Tick { outcome: Some(outcome), portal_spawned: false };
            },
            Outcome::MovedAndAte => {
                let grown = self.snake.body.len();
                assert(self.score < grown);
                self.score = self.score + 1;
                if self.score % POINTS_PER_LEVEL == 0 {
                    self.speed_level = self.speed_level + 1;
                }
                match Food::new(&self.snake, self.bounds) {
                    Some(f) => self.food = f,
                    None => {
                        self.phase = Phase::GameOver;
                        return Tick { outcome: Some(outcome), portal_spawned: false };
                    },
                }
            },
            Outcome::Moved => {},
        }
        let mut portal_spawned = false;
        if portal_due && !self.portal.active {
            match Portal::new(self.bounds, &self.snake) {
                Some(p) => {
                    self.portal = p;
                    portal_spawned = true;
                },
                None => {},
            }
        }
        Tick { outcome: Some(outcome), portal_spawned }
    }
}

} // verus!
