//! The snake state machine: an ordered body of grid cells, a heading, a tick
//! countdown that decouples simulation steps from render frames, and a
//! post-spawn grace counter that suppresses self-collision checks while the
//! freshly spawned segments still overlap.

use vstd::prelude::*;
use crate::grid::{Pos, Direction, in_grid, opposite, stepped, WIDTH, HEIGHT};
use std::collections::VecDeque;

verus! {

/// Render frames per second the tick countdown is calibrated against.
pub const FRAME_RATE: u32 = 60;
/// Simulation steps per second.
pub const TICKS_PER_SECOND: u32 = 15;
/// Frames of countdown between two simulation steps; a step fires on the
/// frame where the countdown has reached zero.
pub const TICK_INTERVAL: u32 = FRAME_RATE / TICKS_PER_SECOND;

/// The mathematical state of a snake: the contracts below speak of this view.
#[verifier::ext_equal]
pub ghost struct SnakeView {
    /// Cells the snake occupies, head first, in spatial order.
    pub body: Seq<Pos>,
    /// Direction the next simulation step will move the head in.
    pub heading: Direction,
    /// Frames left before the next simulation step fires.
    pub tick_cooldown: int,
    /// Collision checks left to skip after (re)spawning.
    pub spawn_grace: int,
}

impl SnakeView {
    /// Well-formed snake state: a nonempty body of on-grid cells, a countdown
    /// within the tick interval, and a nonnegative grace counter.
    pub open spec fn wf(self) -> bool {
        &&& self.body.len() >= 1
        &&& forall|i: int| 0 <= i < self.body.len() ==> in_grid(#[trigger] self.body[i])
        &&& 0 <= self.tick_cooldown <= TICK_INTERVAL
        &&& 0 <= self.spawn_grace
    }

    /// The head cell is the first body cell.
    pub open spec fn head(self) -> Pos {
        self.body[0]
    }

    /// The head overlaps some other body cell.
    pub open spec fn collides(self) -> bool {
        exists|i: int| 1 <= i < self.body.len() && self.body[i] == self.head()
    }
}

/// State after one `advance` call: on a cooldown frame only the countdown
/// drops; on a step frame the countdown resets, a wrapped new head is pushed
/// in front and the tail cell is dropped.
pub open spec fn advance_tr(s: SnakeView) -> SnakeView {
    if s.tick_cooldown > 0 {
        SnakeView { tick_cooldown: s.tick_cooldown - 1, ..s }
    } else {
        SnakeView {
            body: seq![stepped(s.head(), s.heading)] + s.body.drop_last(),
            tick_cooldown: TICK_INTERVAL as int,
            ..s
        }
    }
}

/// State after one `grow` call: the tail cell is duplicated.
pub open spec fn grow_tr(s: SnakeView) -> SnakeView {
    SnakeView { body: s.body.push(s.body.last()), ..s }
}

/// Whether the head sits exactly on `food`.
pub open spec fn eats(s: SnakeView, food: Pos) -> bool {
    s.head() == food
}

/// State after one `ate_food` call: the snake grows exactly when the head
/// equals the food cell, and is untouched otherwise.
pub open spec fn ate_food_tr(s: SnakeView, food: Pos) -> SnakeView {
    if eats(s, food) {
        grow_tr(s)
    } else {
        s
    }
}

/// State after one `has_collided` call: during the grace period only the
/// grace counter drops; afterwards the check mutates nothing.
pub open spec fn collision_check_tr(s: SnakeView) -> SnakeView {
    if s.spawn_grace > 0 {
        SnakeView { spawn_grace: s.spawn_grace - 1, ..s }
    } else {
        s
    }
}

/// Result of one `has_collided` call: always false during the grace period,
/// the real overlap scan afterwards.
pub open spec fn collision_check_result(s: SnakeView) -> bool {
    if s.spawn_grace > 0 {
        false
    } else {
        s.collides()
    }
}

/// State after one `set_direction` call: a request for the exact opposite of
/// the current heading is rejected, any other heading is latched.
pub open spec fn set_direction_tr(s: SnakeView, d: Direction) -> SnakeView {
    if d == opposite(s.heading) {
        s
    } else {
        SnakeView { heading: d, ..s }
    }
}

/// Every operation of the state machine preserves well-formedness: from a
/// well-formed snake, any reachable snake again has a nonempty body of
/// on-grid cells (and its head is its first body cell).
pub proof fn lemma_transitions_preserve_wf(s: SnakeView, d: Direction, food: Pos)
    requires
        s.wf(),
    ensures
        advance_tr(s).wf(),
        grow_tr(s).wf(),
        ate_food_tr(s, food).wf(),
        collision_check_tr(s).wf(),
        set_direction_tr(s, d).wf(),
{
    crate::grid::lemma_step_in_grid(s.head(), s.heading);
    assert forall|i: int| 0 <= i < advance_tr(s).body.len() implies in_grid(
        #[trigger] advance_tr(s).body[i],
    ) by {
        if s.tick_cooldown <= 0 && i >= 1 {
            assert(advance_tr(s).body[i] == s.body[i - 1]);
        }
    }
    assert forall|i: int| 0 <= i < grow_tr(s).body.len() implies in_grid(
        #[trigger] grow_tr(s).body[i],
    ) by {
        if i == grow_tr(s).body.len() - 1 {
            assert(grow_tr(s).body[i] == s.body[s.body.len() - 1]);
        }
    }
}

/// Once the grace period has expired, a collision check mutates nothing, so
/// repeated checks without an intervening `advance` or `set_direction` all
/// return the same result.
pub proof fn lemma_collision_check_idempotent(s: SnakeView)
    requires
        s.spawn_grace == 0,
    ensures
        collision_check_tr(s) == s,
        collision_check_result(collision_check_tr(s)) == collision_check_result(s),
{
}

/// The cell at the centre of the board, where a snake spawns.
pub open spec fn spawn_cell() -> Pos {
    Pos { x: (WIDTH / 2) as i32, y: (HEIGHT / 2) as i32 }
}

/// The state of a freshly spawned snake of `n` segments: all segments stacked
/// on the centre cell, heading up, a full tick countdown, and `n + 1`
/// collision checks of grace.
pub open spec fn spawn_view(n: int) -> SnakeView {
    SnakeView {
        body: Seq::new(n as nat, |i| spawn_cell()),
        heading: Direction::Up,
        tick_cooldown: TICK_INTERVAL as int,
        spawn_grace: n + 1,
    }
}

pub struct Snake {
    pub body: VecDeque<Pos>,
    pub heading: Direction,
    pub tick_cooldown: u32,
    pub spawn_grace: u32,
}

impl View for Snake {
    type V = SnakeView;

    open spec fn view(&self) -> SnakeView {
        SnakeView {
            body: self.body@,
            heading: self.heading,
            tick_cooldown: self.tick_cooldown as int,
            spawn_grace: self.spawn_grace as int,
        }
    }
}

impl Snake {
    /// A freshly spawned snake: `initial_length` segments stacked on the
    /// centre cell, heading up, a full tick countdown, and a grace counter of
    /// `initial_length + 1` collision checks.
    pub fn new(initial_length: u32) -> (s: Snake)
        requires
            1 <= initial_length < u32::MAX,
        ensures
            s@.wf(),
            s@ == spawn_view(initial_length as int),
    {
        let mut body: VecDeque<Pos> = VecDeque::new();
        body.push_back(Pos { x: WIDTH / 2, y: HEIGHT / 2 });
        let mut snake = Snake {
            body,
            heading: Direction::Up,
            tick_cooldown: TICK_INTERVAL,
            spawn_grace: initial_length + 1,
        };
        let mut i: u32 = 1;
        while i < initial_length
            invariant
                1 <= i <= initial_length,
                snake@.wf(),
                snake@.body.len() == i,
                forall|j: int| 0 <= j < snake@.body.len() ==> snake@.body[j] == spawn_cell(),
                snake@.heading == Direction::Up,
                snake@.tick_cooldown == TICK_INTERVAL,
                snake@.spawn_grace == initial_length + 1,
            decreases initial_length - i,
        {
            snake.grow();
            i = i + 1;
        }
        assert(snake@ =~= spawn_view(initial_length as int));
        snake
    }

    /// The cell the head occupies.
    pub fn head(&self) -> (r: Pos)
        requires
            self@.wf(),
        ensures
            r == self@.head(),
    {
        self.body[0]
    }

    /// One frame of simulation: counts the tick cooldown down, and on the
    /// frame where it has run out, moves the snake one cell along its heading
    /// (wrapping at the board edges) and resets the cooldown.
    pub fn advance(&mut self)
        requires
            old(self)@.wf(),
        ensures
            final(self)@ == advance_tr(old(self)@),
            final(self)@.wf(),
    {
        if self.tick_cooldown > 0 {
            self.tick_cooldown = self.tick_cooldown - 1;
            assert(self@ =~= advance_tr(old(self)@));
            return;
        }

        self.tick_cooldown = TICK_INTERVAL;

        let head = self.body[0];
        let new_head = crate::grid::step(head, self.heading);
        self.body.push_front(new_head);
        self.body.pop_back();
        assert(self@.body =~= seq![stepped(old(self)@.head(), old(self)@.heading)]
            + old(self)@.body.drop_last());
        assert(self@ =~= advance_tr(old(self)@));
    }

    /// Duplicates the tail cell, lengthening the body by one; the duplicate
    /// trails in place over the next simulation steps.
    pub fn grow(&mut self)
        requires
            old(self)@.wf(),
        ensures
            final(self)@ == grow_tr(old(self)@),
            final(self)@.wf(),
    {
        let tail = self.body[self.body.len() - 1];
        self.body.push_back(tail);
        assert(self@ =~= grow_tr(old(self)@));
    }

    /// Compares the head cell to `food` by exact equality; on a match the
    /// snake grows and the call reports true, otherwise nothing changes.
    pub fn ate_food(&mut self, food: &Pos) -> (r: bool)
        requires
            old(self)@.wf(),
        ensures
            r == eats(old(self)@, *food),
            final(self)@ == ate_food_tr(old(self)@, *food),
            final(self)@.wf(),
    {
        let head = self.body[0];
        if head.x == food.x && head.y == food.y {
            assert(head == *food);
            self.grow();
            true
        } else {
            assert(self@ =~= ate_food_tr(old(self)@, *food));
            false
        }
    }

    /// Self-collision check: during the spawn grace period it only counts the
    /// grace down and reports false; afterwards it scans the body for a cell
    /// equal to the head and mutates nothing.
    pub fn has_collided(&mut self) -> (r: bool)
        requires
            old(self)@.wf(),
        ensures
            r == collision_check_result(old(self)@),
            final(self)@ == collision_check_tr(old(self)@),
            final(self)@.wf(),
    {
        if self.spawn_grace > 0 {
            self.spawn_grace = self.spawn_grace - 1;
            assert(self@ =~= collision_check_tr(old(self)@));
            return false;
        }

        let head = self.body[0];
        let mut i: usize = 1;
        while i < self.body.len()
            invariant
                self == old(self),
                self@.spawn_grace == 0,
                self@.wf(),
                1 <= i <= self@.body.len(),
                head == self@.head(),
                forall|j: int| 1 <= j < i ==> self@.body[j] != self@.head(),
            decreases self@.body.len() - i,
        {
            let part = self.body[i];
            if head.x == part.x && head.y == part.y {
                assert(self@.body[i as int] == self@.head());
                return true;
            }
            i = i + 1;
        }
        false
    }

    /// Latches a new heading, unless the request is the exact opposite of the
    /// current heading, which is rejected to keep the snake from reversing
    /// into its own neck.
    pub fn set_direction(&mut self, d: Direction)
        requires
            old(self)@.wf(),
        ensures
            final(self)@ == set_direction_tr(old(self)@, d),
            final(self)@.wf(),
    {
        let rejected = match (d, self.heading) {
            (Direction::Up, Direction::Down) => true,
            (Direction::Down, Direction::Up) => true,
            (Direction::Left, Direction::Right) => true,
            (Direction::Right, Direction::Left) => true,
            _ => false,
        };
        if !rejected {
            self.heading = d;
        }
        assert(self@ =~= set_direction_tr(old(self)@, d));
    }

    /// Decides whether the snake state is well formed, so that an unverified
    /// caller can test it before relying on it.
    pub fn is_wf(&self) -> (r: bool)
        ensures
            r == self@.wf(),
    {
        if self.body.len() == 0 {
            return false;
        }
        if self.tick_cooldown > TICK_INTERVAL {
            return false;
        }
        let mut i: usize = 0;
        while i < self.body.len()
            invariant
                0 <= i <= self@.body.len(),
                forall|j: int| 0 <= j < i ==> in_grid(#[trigger] self@.body[j]),
            decreases self@.body.len() - i,
        {
            if !crate::grid::check_in_grid(&self.body[i]) {
                return false;
            }
            i = i + 1;
        }
        true
    }

    /// How many cells the body occupies.
    pub fn len(&self) -> (r: usize)
        ensures
            r == self@.body.len(),
    {
        self.body.len()
    }
}

} // verus!
