//! Board geometry: cell-aligned positions on a toroidal grid, the four
//! movement directions, and the wrap-around arithmetic movement uses.

use vstd::prelude::*;

verus! {

/// Board width in pixels.
pub const WIDTH: i32 = 800;
/// Board height in pixels.
pub const HEIGHT: i32 = 800;
/// Side length of one grid cell in pixels.
pub const CELL: i32 = 20;

/// A grid cell, identified by the pixel coordinate of its top-left corner.
/// Every reachable position has both coordinates inside the board and aligned
/// to the cell size, so equality of positions is exact equality of the pair.
#[derive(Clone, Copy, PartialEq, Eq, Structural, Debug)]
pub struct Pos {
    pub x: i32,
    pub y: i32,
}

/// One of the four unit headings; there are no diagonals.
#[derive(Clone, Copy, PartialEq, Eq, Structural, Debug)]
pub enum Direction {
    Up,
    Down,
    Left,
    Right,
}

/// A coordinate pair lies on the board and on the cell grid.
pub open spec fn in_grid(p: Pos) -> bool {
    &&& 0 <= p.x < WIDTH
    &&& 0 <= p.y < HEIGHT
    &&& p.x % CELL == 0
    &&& p.y % CELL == 0
}

/// Horizontal displacement of one step in direction `d`, in pixels.
pub open spec fn delta_x(d: Direction) -> int {
    match d {
        Direction::Left => -CELL as int,
        Direction::Right => CELL as int,
        _ => 0,
    }
}

/// Vertical displacement of one step in direction `d`, in pixels.
/// The y axis points down, so `Up` decreases y.
pub open spec fn delta_y(d: Direction) -> int {
    match d {
        Direction::Up => -CELL as int,
        Direction::Down => CELL as int,
        _ => 0,
    }
}

/// The heading pointing exactly the other way.
pub open spec fn opposite(d: Direction) -> Direction {
    match d {
        Direction::Up => Direction::Down,
        Direction::Down => Direction::Up,
        Direction::Left => Direction::Right,
        Direction::Right => Direction::Left,
    }
}

/// Maps a coordinate into `[0, dim)` by modular arithmetic, so a step off one
/// edge of the board re-enters from the opposite edge.
pub open spec fn wrap(c: int, dim: int) -> int {
    c % dim
}

/// x coordinate of the head after one step from `p` in direction `d`.
pub open spec fn step_x(p: Pos, d: Direction) -> int {
    wrap(p.x + delta_x(d), WIDTH as int)
}

/// y coordinate of the head after one step from `p` in direction `d`.
pub open spec fn step_y(p: Pos, d: Direction) -> int {
    wrap(p.y + delta_y(d), HEIGHT as int)
}

/// The cell one step from `p` in direction `d`, as a position. The wrapped
/// coordinates lie in `[0, WIDTH)` and `[0, HEIGHT)`, so the casts are exact.
pub open spec fn stepped(p: Pos, d: Direction) -> Pos {
    Pos { x: step_x(p, d) as i32, y: step_y(p, d) as i32 }
}

/// Executable wrap-around: adds `delta` to `c` and folds the sum back into
/// `[0, dim)`.
pub fn wrap_add(c: i32, delta: i32, dim: i32) -> (r: i32)
    requires
        0 < dim <= 0x4000_0000,
        0 <= c < dim,
        -dim <= delta <= dim,
    ensures
        r as int == wrap(c + delta, dim as int),
        0 <= r < dim,
{
    let s = c + delta;
    if s < 0 {
        assert((s + dim) % (dim as int) == (s as int) % (dim as int)) by {
            vstd::arithmetic::div_mod::lemma_mod_add_multiples_vanish(s as int, dim as int);
        }
        assert((s + dim) % (dim as int) == s + dim) by {
            vstd::arithmetic::div_mod::lemma_small_mod((s + dim) as nat, dim as nat);
        }
        s + dim
    } else if s >= dim {
        assert((s - dim) % (dim as int) == (s as int) % (dim as int)) by {
            vstd::arithmetic::div_mod::lemma_mod_sub_multiples_vanish(s as int, dim as int);
        }
        assert((s - dim) % (dim as int) == s - dim) by {
            vstd::arithmetic::div_mod::lemma_small_mod((s - dim) as nat, dim as nat);
        }
        s - dim
    } else {
        assert((s as int) % (dim as int) == s) by {
            vstd::arithmetic::div_mod::lemma_small_mod(s as nat, dim as nat);
        }
        s
    }
}

/// Decides whether a position lies on the board and on the cell grid.
pub fn check_in_grid(p: &Pos) -> (r: bool)
    ensures
        r == in_grid(*p),
{
    0 <= p.x && p.x < WIDTH && 0 <= p.y && p.y < HEIGHT && p.x % CELL == 0 && p.y % CELL == 0
}

/// The cell one step from `p` in direction `d`, wrapped at the board edges.
pub fn step(p: Pos, d: Direction) -> (r: Pos)
    requires
        in_grid(p),
    ensures
        r == stepped(p, d),
        in_grid(r),
{
    let dx: i32 = match d {
        Direction::Left => -CELL,
        Direction::Right => CELL,
        _ => 0,
    };
    let dy: i32 = match d {
        Direction::Up => -CELL,
        Direction::Down => CELL,
        _ => 0,
    };
    let x = wrap_add(p.x, dx, WIDTH);
    let y = wrap_add(p.y, dy, HEIGHT);
    proof {
        lemma_step_in_grid(p, d);
    }
    Pos { x, y }
}

/// A step from an on-grid cell lands on an on-grid cell: the wrapped
/// coordinates stay inside the board and keep their cell alignment.
pub proof fn lemma_step_in_grid(p: Pos, d: Direction)
    requires
        in_grid(p),
    ensures
        in_grid(stepped(p, d)),
{
    lemma_wrap_keeps_alignment(p.x as int, delta_x(d), WIDTH as int);
    lemma_wrap_keeps_alignment(p.y as int, delta_y(d), HEIGHT as int);
}

/// Wrapping a cell-aligned coordinate by a cell-aligned displacement inside a
/// cell-aligned dimension lands on the cell grid again.
proof fn lemma_wrap_keeps_alignment(c: int, delta: int, dim: int)
    requires
        0 < dim,
        dim % (CELL as int) == 0,
        c % (CELL as int) == 0,
        delta % (CELL as int) == 0,
    ensures
        wrap(c + delta, dim) % (CELL as int) == 0,
{
    let s = c + delta;
    vstd::arithmetic::div_mod::lemma_fundamental_div_mod(s, dim);
    let q = s / dim;
    assert(wrap(s, dim) == s - q * dim);
    assert((q * dim) % (CELL as int) == 0) by {
        vstd::arithmetic::div_mod::lemma_mod_multiples_basic(q * (dim / (CELL as int)), CELL as int);
        vstd::arithmetic::div_mod::lemma_fundamental_div_mod(dim, CELL as int);
        assert(q * dim == (q * (dim / (CELL as int))) * (CELL as int)) by (nonlinear_arith)
            requires dim == (dim / (CELL as int)) * (CELL as int);
    }
    assert(s % (CELL as int) == 0) by {
        vstd::arithmetic::div_mod::lemma_add_mod_noop(c, delta, CELL as int);
    }
    assert((s - q * dim) % (CELL as int) == 0) by {
        vstd::arithmetic::div_mod::lemma_sub_mod_noop(s, q * dim, CELL as int);
    }
}

/// Wrap-around at the four board edges: a head on the last column stepping
/// right reappears in column 0 with its row unchanged, and likewise for the
/// other three edges.
pub proof fn lemma_wrap_around(p: Pos)
    requires
        in_grid(p),
    ensures
        p.x == WIDTH - CELL ==> step_x(p, Direction::Right) == 0,
        p.x == 0 ==> step_x(p, Direction::Left) == WIDTH - CELL,
        p.y == HEIGHT - CELL ==> step_y(p, Direction::Down) == 0,
        p.y == 0 ==> step_y(p, Direction::Up) == HEIGHT - CELL,
        step_y(p, Direction::Right) == p.y && step_y(p, Direction::Left) == p.y,
        step_x(p, Direction::Up) == p.x && step_x(p, Direction::Down) == p.x,
{
    vstd::arithmetic::div_mod::lemma_mod_self_0(WIDTH as int);
    vstd::arithmetic::div_mod::lemma_mod_add_multiples_vanish(-CELL as int, WIDTH as int);
    vstd::arithmetic::div_mod::lemma_small_mod((WIDTH - CELL) as nat, WIDTH as nat);
    vstd::arithmetic::div_mod::lemma_mod_self_0(HEIGHT as int);
    vstd::arithmetic::div_mod::lemma_mod_add_multiples_vanish(-CELL as int, HEIGHT as int);
    vstd::arithmetic::div_mod::lemma_small_mod((HEIGHT - CELL) as nat, HEIGHT as nat);
    vstd::arithmetic::div_mod::lemma_small_mod(p.x as nat, WIDTH as nat);
    vstd::arithmetic::div_mod::lemma_small_mod(p.y as nat, HEIGHT as nat);
}

} // verus!
