//! Board geometry: cells, the wall ring and the playable interior.
use rand::Rng;
use vstd::prelude::*;

verus! {

/// Column of the right wall; the interior spans columns `1..WIDTH`.
pub const WIDTH: u16 = 32;

/// Row of the bottom wall; the interior spans rows `1..HEIGHT`.
pub const HEIGHT: u16 = 16;

/// Length of one tick, in milliseconds.
pub const INTERVAL: u64 = 200;

/// A cell of the board: one segment of the snake, or the food.
#[derive(Clone, Copy, Debug, PartialEq, Eq, Structural)]
pub struct Snek {
    pub x: u16,
    pub y: u16,
}

impl Snek {
    pub fn new(x: u16, y: u16) -> (r: Snek)
        ensures
            r.x == x,
            r.y == y,
    {
        Snek { x, y }
    }
}

/// The cell lies on the board, wall ring included.
pub open spec fn on_board(p: Snek) -> bool {
    p.x <= WIDTH && p.y <= HEIGHT
}

/// The cell belongs to the wall ring around the board.
pub open spec fn on_wall(p: Snek) -> bool {
    p.x == 0 || p.y == 0 || p.x == WIDTH || p.y == HEIGHT
}

/// The cell lies strictly inside the wall ring.
pub open spec fn inside(p: Snek) -> bool {
    1 <= p.x < WIDTH && 1 <= p.y < HEIGHT
}

/// Whether the cell is part of the wall ring.
pub fn hits_wall(p: Snek) -> (r: bool)
    ensures
        r == on_wall(p),
{
    p.x == 0 || p.y == 0 || p.x == WIDTH || p.y == HEIGHT
}

/// Relies on `rand::rng` and `Rng::random_range` over `lo..hi`: the thread-local
/// generator yields a value of the half-open range, and panics only when it is empty.
#[verifier::external_body]
fn random_in(lo: u16, hi: u16) -> (r: u16)
    requires
        lo < hi,
    ensures
        lo <= r < hi,
{
    rand::rng().random_range(lo..hi)
}

/// A cell of the interior, drawn at random. It may lie under the snake.
pub fn random_food() -> (p: Snek)
    ensures
        inside(p),
{
    let x = random_in(1, WIDTH);
    let y = random_in(1, HEIGHT);
    Snek::new(x, y)
}

} // verus!
