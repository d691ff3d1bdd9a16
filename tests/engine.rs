use snake_engine::entities::{contains_point, Food, Meteor, Portal};
use snake_engine::geometry::{Bounds, Direction, Point};
use snake_engine::pacing::tick_delay;
use snake_engine::session::{Input, Phase, Session, METEOR_COUNT};
use snake_engine::snake::{Outcome, Snake};
use snake_engine::spawn::spawn_cell;

fn pt(x: i32, y: i32) -> Point {
    Point { x, y }
}

fn snake_of(cells: &[(i32, i32)], direction: Direction) -> Snake {
    Snake { body: cells.iter().map(|&(x, y)| pt(x, y)).collect(), direction }
}

fn idle_portal() -> Portal {
    Portal { entry: pt(14, 1), exit: pt(15, 1), active: false }
}

fn session_with(snake: Snake, food: Point, portal: Portal, meteors: Vec<Meteor>) -> Session {
    Session {
        bounds: Bounds::new(20, 10),
        snake,
        food: Food { position: food },
        meteors,
        portal,
        score: 0,
        speed_level: 1,
        phase: Phase::Running,
    }
}

#[test]
fn new_snake_layout() {
    let s = Snake::new();
    assert_eq!(s.body, vec![pt(5, 5), pt(4, 5), pt(3, 5)]);
    assert_eq!(s.direction, Direction::Right);
}

#[test]
fn reversal_is_rejected() {
    let mut s = Snake::new();
    s.change_direction(Direction::Left);
    assert_eq!(s.direction, Direction::Right);
    s.change_direction(Direction::Up);
    assert_eq!(s.direction, Direction::Up);
    s.change_direction(Direction::Up);
    assert_eq!(s.direction, Direction::Up);
    s.change_direction(Direction::Down);
    assert_eq!(s.direction, Direction::Up);
}

#[test]
fn wall_collision_at_origin() {
    let mut s = snake_of(&[(0, 0), (1, 0), (2, 0)], Direction::Left);
    let mut portal = idle_portal();
    let out = s.move_forward(Bounds::new(20, 10), pt(8, 8), &[], &mut portal);
    assert_eq!(out, Outcome::Collided);
    assert_eq!(s.body, vec![pt(0, 0), pt(1, 0), pt(2, 0)]);
}

#[test]
fn far_wall_collision() {
    let mut s = snake_of(&[(15, 3), (14, 3), (13, 3)], Direction::Right);
    let mut portal = idle_portal();
    assert_eq!(s.move_forward(Bounds::new(20, 10), pt(8, 8), &[], &mut portal), Outcome::Collided);
    let mut s = snake_of(&[(3, 5), (3, 4), (3, 3)], Direction::Down);
    assert_eq!(s.move_forward(Bounds::new(20, 10), pt(8, 8), &[], &mut portal), Outcome::Collided);
}

#[test]
fn extreme_coordinates_collide() {
    let mut s = snake_of(&[(i32::MIN, 0)], Direction::Left);
    let mut portal = idle_portal();
    assert_eq!(s.move_forward(Bounds::new(20, 10), pt(8, 8), &[], &mut portal), Outcome::Collided);
    let mut s = snake_of(&[(0, i32::MAX)], Direction::Down);
    assert_eq!(s.move_forward(Bounds::new(20, 10), pt(8, 8), &[], &mut portal), Outcome::Collided);
}

#[test]
fn self_collision_wrap() {
    let cells = [(5, 5), (4, 5), (3, 5), (2, 5), (2, 6), (3, 6), (4, 6), (5, 6), (5, 5)];
    let mut s = snake_of(&cells, Direction::Down);
    let mut portal = idle_portal();
    let out = s.move_forward(Bounds::new(20, 10), pt(8, 8), &[], &mut portal);
    assert_eq!(out, Outcome::Collided);
    assert_eq!(s.body.len(), cells.len());
}

#[test]
fn moving_into_tail_collides() {
    let mut s = snake_of(&[(5, 5), (5, 6), (4, 6), (4, 5)], Direction::Left);
    let mut portal = idle_portal();
    assert_eq!(s.move_forward(Bounds::new(20, 10), pt(8, 8), &[], &mut portal), Outcome::Collided);
}

#[test]
fn meteor_collision() {
    let mut s = Snake::new();
    let mut portal = idle_portal();
    let meteors = [Meteor { position: pt(6, 5) }];
    assert_eq!(s.move_forward(Bounds::new(20, 10), pt(8, 8), &meteors, &mut portal), Outcome::Collided);
    assert_eq!(s.body, vec![pt(5, 5), pt(4, 5), pt(3, 5)]);
}

#[test]
fn length_kept_on_plain_move() {
    let mut s = Snake::new();
    let mut portal = idle_portal();
    let out = s.move_forward(Bounds::new(20, 10), pt(8, 8), &[], &mut portal);
    assert_eq!(out, Outcome::Moved);
    assert_eq!(s.body, vec![pt(6, 5), pt(5, 5), pt(4, 5)]);
}

#[test]
fn length_grows_by_one_on_eating() {
    let mut s = Snake::new();
    let mut portal = idle_portal();
    let out = s.move_forward(Bounds::new(20, 10), pt(6, 5), &[], &mut portal);
    assert_eq!(out, Outcome::MovedAndAte);
    assert_eq!(s.body, vec![pt(6, 5), pt(5, 5), pt(4, 5), pt(3, 5)]);
}

#[test]
fn portal_one_shot() {
    let mut s = Snake::new();
    let mut portal = Portal { entry: pt(6, 5), exit: pt(10, 2), active: true };
    let out = s.move_forward(Bounds::new(20, 10), pt(8, 8), &[], &mut portal);
    assert_eq!(out, Outcome::Moved);
    assert_eq!(s.body[0], pt(10, 2));
    assert!(!portal.active);
    let mut again = Snake::new();
    let out = again.move_forward(Bounds::new(20, 10), pt(8, 8), &[], &mut portal);
    assert_eq!(out, Outcome::Moved);
    assert_eq!(again.body[0], pt(6, 5));
    assert!(!portal.active);
}

#[test]
fn portal_exit_leads_to_entry() {
    let mut s = Snake::new();
    let mut portal = Portal { entry: pt(10, 2), exit: pt(6, 5), active: true };
    assert_eq!(s.move_forward(Bounds::new(20, 10), pt(8, 8), &[], &mut portal), Outcome::Moved);
    assert_eq!(s.body[0], pt(10, 2));
    assert!(!portal.active);
}

#[test]
fn portal_exit_out_of_bounds_collides_and_consumes() {
    let mut s = Snake::new();
    let mut portal = Portal { entry: pt(6, 5), exit: pt(30, 2), active: true };
    assert_eq!(s.move_forward(Bounds::new(20, 10), pt(8, 8), &[], &mut portal), Outcome::Collided);
    assert!(!portal.active);
    assert_eq!(s.body, vec![pt(5, 5), pt(4, 5), pt(3, 5)]);
}

#[test]
fn delays_match_constants() {
    assert_eq!(tick_delay(Direction::Left, 1), 130);
    assert_eq!(tick_delay(Direction::Right, 2), 110);
    assert_eq!(tick_delay(Direction::Up, 1), 180);
    assert_eq!(tick_delay(Direction::Down, 3), 140);
    assert_eq!(tick_delay(Direction::Left, 0), 150);
    assert_eq!(tick_delay(Direction::Up, 0), 200);
    assert_eq!(tick_delay(Direction::Right, 5), 50);
    assert_eq!(tick_delay(Direction::Up, 8), 50);
    assert_eq!(tick_delay(Direction::Up, u64::MAX), 50);
}

#[test]
fn delay_non_increasing_in_level() {
    for d in [Direction::Left, Direction::Up] {
        let mut prev = tick_delay(d, 0);
        for level in 1..20u64 {
            let cur = tick_delay(d, level);
            assert!(cur <= prev);
            assert!(cur >= 50);
            prev = cur;
        }
    }
}

#[test]
fn end_to_end_scenario() {
    let mut session = session_with(Snake::new(), pt(6, 5), idle_portal(), Vec::new());
    let tick = session.step(Input::Idle, false);
    assert_eq!(tick.outcome, Some(Outcome::MovedAndAte));
    assert_eq!(session.snake.body[0], pt(6, 5));
    assert_eq!(session.snake.body.len(), 4);
    assert_eq!(session.score, 1);
    assert_eq!(session.speed_level, 1);
    assert_eq!(session.phase, Phase::Running);
}

#[test]
fn food_respawn_avoids_body() {
    for _ in 0..200 {
        let mut session = session_with(Snake::new(), pt(6, 5), idle_portal(), Vec::new());
        session.step(Input::Idle, false);
        let p = session.food.position;
        assert!(!session.snake.body.contains(&p));
        assert!(p.x >= 2 && p.x < 14 && p.y >= 2 && p.y < 4);
    }
}

#[test]
fn spawned_food_varies() {
    let snake = Snake::new();
    let first = Food::new(&snake, Bounds::new(60, 40)).unwrap().position;
    let mut differs = false;
    for _ in 0..100 {
        if Food::new(&snake, Bounds::new(60, 40)).unwrap().position != first {
            differs = true;
        }
    }
    assert!(differs);
}

#[test]
fn turn_then_move() {
    let mut session = session_with(Snake::new(), pt(8, 8), idle_portal(), Vec::new());
    let tick = session.step(Input::Turn(Direction::Up), false);
    assert_eq!(tick.outcome, Some(Outcome::Moved));
    assert_eq!(session.snake.direction, Direction::Up);
    assert_eq!(session.snake.body[0], pt(5, 4));
    let tick = session.step(Input::Turn(Direction::Down), false);
    assert_eq!(tick.outcome, Some(Outcome::Moved));
    assert_eq!(session.snake.body[0], pt(5, 3));
}

#[test]
fn quit_ends_game_without_moving() {
    let mut session = session_with(Snake::new(), pt(8, 8), idle_portal(), Vec::new());
    let tick = session.step(Input::Quit, false);
    assert_eq!(tick.outcome, None);
    assert_eq!(session.phase, Phase::GameOver);
    assert_eq!(session.snake.body[0], pt(5, 5));
    let tick = session.step(Input::Idle, false);
    assert_eq!(tick.outcome, None);
    assert_eq!(session.snake.body[0], pt(5, 5));
}

#[test]
fn collision_ends_game() {
    let snake = snake_of(&[(15, 3), (14, 3), (13, 3)], Direction::Right);
    let mut session = session_with(snake, pt(8, 8), idle_portal(), Vec::new());
    let tick = session.step(Input::Idle, false);
    assert_eq!(tick.outcome, Some(Outcome::Collided));
    assert_eq!(session.phase, Phase::GameOver);
    assert_eq!(session.score, 0);
}

#[test]
fn speed_level_rises_every_five_points() {
    let mut session = session_with(Snake::new(), pt(6, 5), idle_portal(), Vec::new());
    for i in 0..5 {
        session.food = Food { position: pt(6 + i, 5) };
        let tick = session.step(Input::Idle, false);
        assert_eq!(tick.outcome, Some(Outcome::MovedAndAte));
    }
    assert_eq!(session.score, 5);
    assert_eq!(session.speed_level, 2);
    assert_eq!(session.snake.body.len(), 8);
}

#[test]
fn portal_respawns_only_when_consumed() {
    let active = Portal { entry: pt(12, 2), exit: pt(13, 2), active: true };
    let mut session = session_with(Snake::new(), pt(8, 8), active, Vec::new());
    let tick = session.step(Input::Idle, true);
    assert!(!tick.portal_spawned);
    assert_eq!(session.portal, active);
    let mut session = session_with(Snake::new(), pt(8, 8), idle_portal(), Vec::new());
    let tick = session.step(Input::Idle, true);
    assert!(tick.portal_spawned);
    assert!(session.portal.active);
    assert_ne!(session.portal.entry, session.portal.exit);
    assert!(!session.snake.body.contains(&session.portal.entry));
    assert!(!session.snake.body.contains(&session.portal.exit));
    let mut session = session_with(Snake::new(), pt(8, 8), idle_portal(), Vec::new());
    let tick = session.step(Input::Idle, false);
    assert!(!tick.portal_spawned);
    assert!(!session.portal.active);
}

#[test]
fn new_session_on_roomy_terminal() {
    let session = Session::new(Bounds::new(20, 10)).unwrap();
    assert_eq!(session.snake.body, vec![pt(5, 5), pt(4, 5), pt(3, 5)]);
    assert_eq!(session.meteors.len(), METEOR_COUNT);
    assert_eq!(session.score, 0);
    assert_eq!(session.speed_level, 1);
    assert_eq!(session.phase, Phase::Running);
    assert!(session.portal.active);
    assert_ne!(session.portal.entry, session.portal.exit);
    assert!(!session.snake.body.contains(&session.food.position));
    for m in &session.meteors {
        assert!(!session.snake.body.contains(&m.position));
    }
}

#[test]
fn new_session_on_tiny_terminal() {
    assert!(Session::new(Bounds::new(8, 8)).is_none());
    assert!(Session::new(Bounds::new(0, 0)).is_none());
    // A spawn area of a single cell has no room for a portal.
    assert!(Session::new(Bounds::new(9, 9)).is_none());
    assert!(Session::new(Bounds::new(10, 9)).is_some());
}

#[test]
fn spawn_cell_scans_crowded_area() {
    // Spawn area of an 11x9 terminal: x in 2..5, y in 2..3.
    let bounds = Bounds::new(11, 9);
    let body = [pt(2, 2), pt(3, 2)];
    for _ in 0..20 {
        assert_eq!(spawn_cell(bounds, &body, None), Some(pt(4, 2)));
    }
    assert_eq!(spawn_cell(bounds, &body, Some(pt(4, 2))), None);
    let full = [pt(2, 2), pt(3, 2), pt(4, 2)];
    assert_eq!(spawn_cell(bounds, &full, None), None);
}

#[test]
fn food_and_meteor_exhaustion() {
    let snake = snake_of(&[(2, 2), (3, 2), (4, 2)], Direction::Right);
    assert!(Food::new(&snake, Bounds::new(11, 9)).is_none());
    assert!(Meteor::new(Bounds::new(11, 9), &snake).is_none());
    assert!(Portal::new(Bounds::new(11, 9), &snake).is_none());
    let snake = snake_of(&[(2, 2), (3, 2)], Direction::Right);
    assert_eq!(Meteor::new(Bounds::new(11, 9), &snake).unwrap().position, pt(4, 2));
    assert!(Portal::new(Bounds::new(11, 9), &snake).is_none());
}

#[test]
fn eating_last_free_cell_ends_game() {
    // Spawn area x in 2..5, y = 2; the snake fills it once it eats at (4, 2).
    let snake = snake_of(&[(3, 2), (2, 2), (1, 2)], Direction::Right);
    let mut session = session_with(snake, pt(4, 2), idle_portal(), Vec::new());
    session.bounds = Bounds::new(11, 9);
    let tick = session.step(Input::Idle, false);
    assert_eq!(tick.outcome, Some(Outcome::MovedAndAte));
    assert_eq!(session.phase, Phase::GameOver);
    assert_eq!(session.score, 1);
}

#[test]
fn contains_point_finds_members() {
    let body = [pt(1, 1), pt(2, 3)];
    assert!(contains_point(&body, pt(2, 3)));
    assert!(!contains_point(&body, pt(3, 2)));
    assert!(!contains_point(&[], pt(0, 0)));
}
