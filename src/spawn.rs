use vstd::prelude::*;
use crate::geometry::{cell, Bounds, Point, BORDER_MARGIN, SPAWN_INSET};
use crate::entities::{contains_point, occupied};

verus! {

/// How many random cells are tried before the area is scanned in order.
pub const SPAWN_ATTEMPTS: u32 = 100;

/// Whether an entity may be placed on `c`: inside the spawn area and off the body.
pub open spec fn spawnable(bounds: Bounds, body: Seq<Point>, c: (int, int)) -> bool {
    bounds.in_spawn_area(c) && !occupied(body, c)
}

/// Whether the spawn area holds no cell off the body.
pub open spec fn no_room(bounds: Bounds, body: Seq<Point>) -> bool {
    forall|c: (int, int)| !#[trigger] spawnable(bounds, body, c)
}

/// Whether the spawn area holds at most one cell off the body.
pub open spec fn room_for_one(bounds: Bounds, body: Seq<Point>) -> bool {
    forall|c1: (int, int), c2: (int, int)|
        #[trigger] spawnable(bounds, body, c1) && #[trigger] spawnable(bounds, body, c2) ==> c1
            == c2
}

/// Whether `c` is the extra point to keep clear, if there is one.
pub open spec fn hits(avoid: Option<Point>, c: (int, int)) -> bool {
    match avoid {
        Some(p) => cell(p) == c,
        None => false,
    }
}

/// Whether `c` is a cell that `spawn_cell` may hand out.
pub open spec fn free_cell(bounds: Bounds, body: Seq<Point>, avoid: Option<Point>, c: (int, int)) -> bool {
    spawnable(bounds, body, c) && !hits(avoid, c)
}

/// Relies on rand::thread_rng and rand::Rng::gen_range: a value drawn from
/// `lo..hi`. gen_range panics on an empty range, which `requires` rules out.
#[verifier::external_body]
fn random_between(lo: i32, hi: i32) -> (r: i32)
    requires
        lo < hi,
    ensures
        lo <= r < hi,
{
    rand::Rng::gen_range(&mut rand::thread_rng(), lo..hi)
}

fn is_avoided(avoid: Option<Point>, p: Point) -> (r: bool)
    ensures
        r == hits(avoid, cell(p)),
{
    match avoid {
        Some(q) => q == p,
        None => false,
    }
}

/// A free cell of the spawn area: off `body` and other than `avoid`.
///
/// Random cells are drawn first, up to `SPAWN_ATTEMPTS` times; then the area
/// is scanned row by row. `None` comes exactly when the area has no free cell.
pub fn spawn_cell(bounds: Bounds, body: &[Point], avoid: Option<Point>) -> (r: Option<Point>)
    ensures
        r matches Some(p) ==> free_cell(bounds, body@, avoid, cell(p)),
        r is None <==> forall|c: (int, int)| !#[trigger] free_cell(bounds, body@, avoid, c),
{
    let lo = SPAWN_INSET;
    let hx = bounds.width as i32 - 2 * BORDER_MARGIN - SPAWN_INSET;
    let hy = bounds.height as i32 - 2 * BORDER_MARGIN - SPAWN_INSET;
    if lo >= hx || lo >= hy {
        assert forall|c: (int, int)| !#[trigger] free_cell(bounds, body@, avoid, c) by {}
        return None;
    }
    let mut tries: u32 = 0;
    while tries < SPAWN_ATTEMPTS
        invariant
            lo == SPAWN_INSET,
            lo < hx,
            lo < hy,
            hx == bounds.width as int - 2 * BORDER_MARGIN - SPAWN_INSET,
            hy == bounds.height as int - 2 * BORDER_MARGIN - SPAWN_INSET,
        decreases SPAWN_ATTEMPTS - tries,
    {
        let p = Point { x: random_between(lo, hx), y: random_between(lo, hy) };
        if !contains_point(body, p) && !is_avoided(avoid, p) {
            assert(free_cell(bounds, body@, avoid, cell(p)));
            return Some(p);
        }
        tries = tries + 1;
    }
    let mut y: i32 = lo;
    while y < hy
        invariant
            lo == SPAWN_INSET,
            lo < hx,
            lo <= y <= hy,
            hx == bounds.width as int - 2 * BORDER_MARGIN - SPAWN_INSET,
            hy == bounds.height as int - 2 * BORDER_MARGIN - SPAWN_INSET,
            forall|c: (int, int)| c.1 < y ==> !#[trigger] free_cell(bounds, body@, avoid, c),
        decreases hy - y,
    {
        let mut x: i32 = lo;
        while x < hx
            invariant
                lo == SPAWN_INSET,
                lo <= x <= hx,
                lo <= y < hy,
                hx == bounds.width as int - 2 * BORDER_MARGIN - SPAWN_INSET,
                hy == bounds.height as int - 2 * BORDER_MARGIN - SPAWN_INSET,
                forall|c: (int, int)| c.1 < y ==> !#[trigger] free_cell(bounds, body@, avoid, c),
                forall|c: (int, int)|
                    c.1 == y && c.0 < x ==> !#[trigger] free_cell(bounds, body@, avoid, c),
            decreases hx - x,
        {
            let p = Point { x, y };
            if !contains_point(body, p) && !is_avoided(avoid, p) {
                assert(free_cell(bounds, body@, avoid, cell(p)));
            return Some(p);
            }
            x = x + 1;
        }
        y = y + 1;
    }
    None
}

} // verus!
