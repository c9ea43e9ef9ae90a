//! The game session: one snake, one food cell and a score, driven once per
//! rendered frame through input arbitration, a simulation tick, the collision
//! check with reset-on-death, and the food check.

use vstd::prelude::*;
use crate::grid::{Pos, Direction, in_grid, WIDTH, HEIGHT, CELL};
use crate::snake::{
    Snake, SnakeView, advance_tr, ate_food_tr, collision_check_result, collision_check_tr, eats,
    grow_tr, set_direction_tr, spawn_view,
};

verus! {

/// Number of segments a freshly spawned snake has.
pub const INITIAL_LENGTH: u32 = 3;

/// The mathematical state of a game session.
#[verifier::ext_equal]
pub ghost struct GameView {
    pub snake: SnakeView,
    /// The one food cell currently on the board. Food may lie under the
    /// snake's body: the spawner never checks occupancy.
    pub food: Pos,
    /// Food cells eaten since the last death.
    pub score: int,
}

impl GameView {
    /// Well-formed session state: a well-formed snake, a food cell on the
    /// grid, and a nonnegative score.
    pub open spec fn wf(self) -> bool {
        &&& self.snake.wf()
        &&& in_grid(self.food)
        &&& 0 <= self.score
    }
}

/// State after one frame of the session, given the directional input of the
/// frame (if any) and the cell `new_food` that the spawner would hand out if
/// food is eaten this frame: the input is forwarded to the snake, the snake
/// advances one frame, a collision resets snake and score, and eating food
/// grows the snake, replaces the food and scores one point.
pub open spec fn frame_tr(g: GameView, input: Option<Direction>, new_food: Pos) -> GameView {
    let steered = match input {
        Option::Some(d) => set_direction_tr(g.snake, d),
        Option::None => g.snake,
    };
    let moved = advance_tr(steered);
    let collided = collision_check_result(moved);
    let checked = if collided {
        spawn_view(INITIAL_LENGTH as int)
    } else {
        collision_check_tr(moved)
    };
    let score = if collided { 0 } else { g.score };
    if eats(checked, g.food) {
        GameView { snake: grow_tr(checked), food: new_food, score: score + 1 }
    } else {
        GameView { snake: checked, food: g.food, score }
    }
}

pub struct GameSession {
    pub snake: Snake,
    pub food: Pos,
    pub score: u64,
}

impl View for GameSession {
    type V = GameView;

    open spec fn view(&self) -> GameView {
        GameView { snake: self.snake@, food: self.food, score: self.score as int }
    }
}

impl GameSession {
    /// A fresh session: a newly spawned snake, one food cell somewhere on the
    /// grid, and a score of zero.
    pub fn new() -> (g: GameSession)
        ensures
            g@.wf(),
            g@.snake == spawn_view(INITIAL_LENGTH as int),
            g@.score == 0,
    {
        GameSession { snake: Snake::new(INITIAL_LENGTH), food: spawn_food(), score: 0 }
    }

    /// One rendered frame of the session. The food cell spawned after a meal
    /// is random, so the contract fixes everything but its coordinates: the
    /// new state is the frame transition for some on-grid food cell.
    pub fn frame_step(&mut self, input: Option<Direction>)
        requires
            old(self)@.wf(),
            old(self)@.score < u64::MAX,
        ensures
            final(self)@.wf(),
            exists|nf: Pos| #[trigger] frame_tr(old(self)@, input, nf) == final(self)@
                && in_grid(nf),
    {
        if let Some(d) = input {
            self.snake.set_direction(d);
        }
        self.snake.advance();
        if self.snake.has_collided() {
            self.snake = Snake::new(INITIAL_LENGTH);
            self.score = 0;
        }
        let food = self.food;
        if self.snake.ate_food(&food) {
            self.food = spawn_food();
            self.score = self.score + 1;
            proof {
                let nf = self.food;
                assert(self@ =~= frame_tr(old(self)@, input, nf));
            }
        } else {
            proof {
                let nf = old(self)@.food;
                assert(self@ =~= frame_tr(old(self)@, input, nf));
            }
        }
    }

    /// Decides whether the session state is well formed, so that an
    /// unverified caller can test it before relying on it.
    pub fn is_wf(&self) -> (r: bool)
        ensures
            r == self@.wf(),
    {
        self.snake.is_wf() && crate::grid::check_in_grid(&self.food)
    }
}

/// Picks at most one directional intent from the four key states of a frame,
/// in the fixed priority order up, down, left, right.
pub fn direction_from_keys(up: bool, down: bool, left: bool, right: bool) -> (r: Option<
    Direction,
>)
    ensures
        r == (if up {
            Option::Some(Direction::Up)
        } else if down {
            Option::Some(Direction::Down)
        } else if left {
            Option::Some(Direction::Left)
        } else if right {
            Option::Some(Direction::Right)
        } else {
            Option::<Direction>::None
        }),
{
    if up {
        Some(Direction::Up)
    } else if down {
        Some(Direction::Down)
    } else if left {
        Some(Direction::Left)
    } else if right {
        Some(Direction::Right)
    } else {
        None
    }
}

/// A uniformly random cell of the board: each coordinate is drawn from the
/// cell range independently and scaled to pixels. The spawner does not check
/// the snake's occupied cells, so food may legally spawn under the snake.
pub fn spawn_food() -> (r: Pos)
    ensures
        in_grid(r),
{
    let cx = gen_range_i32(0, WIDTH / CELL);
    let cy = gen_range_i32(0, HEIGHT / CELL);
    proof {
        vstd::arithmetic::div_mod::lemma_mod_multiples_basic(cx as int, CELL as int);
        vstd::arithmetic::div_mod::lemma_mod_multiples_basic(cy as int, CELL as int);
    }
    Pos { x: cx * CELL, y: cy * CELL }
}

/// Relies on macroquad::rand::gen_range: for integer bounds it returns
/// low + trunc((high - low) * r) for a draw r in [0, 1), computed in f64, so
/// for bounds this small the result lies in [low, high). The draw depends on
/// the generator's hidden state, so no more is stated of it.
#[verifier::external_body]
fn gen_range_i32(low: i32, high: i32) -> (r: i32)
    requires
        0 <= low < high <= 0x1_0000,
    ensures
        low <= r < high,
{
    macroquad::rand::gen_range(low, high)
}

} // verus!
