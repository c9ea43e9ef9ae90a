use std::collections::VecDeque;

use snek::grid::{step, Direction, Pos, CELL, HEIGHT, WIDTH};
use snek::snake::{Snake, TICK_INTERVAL};

fn pos(x: i32, y: i32) -> Pos {
    Pos { x, y }
}

/// A snake laid out explicitly, ready to move on its next `advance` call.
fn snake_at(cells: Vec<Pos>, heading: Direction, spawn_grace: u32) -> Snake {
    Snake { body: VecDeque::from(cells), heading, tick_cooldown: 0, spawn_grace }
}

/// Runs `advance` until exactly one simulation step has fired.
fn advance_one_tick(snake: &mut Snake) {
    loop {
        let fires = snake.tick_cooldown == 0;
        snake.advance();
        if fires {
            return;
        }
    }
}

#[test]
fn new_snake_is_stacked_at_center() {
    let snake = Snake::new(3);
    assert_eq!(snake.len(), 3);
    for i in 0..3 {
        assert_eq!(snake.body[i], pos(WIDTH / 2, HEIGHT / 2));
    }
    assert_eq!(snake.heading, Direction::Up);
    assert_eq!(snake.tick_cooldown, TICK_INTERVAL);
    assert_eq!(snake.spawn_grace, 4);
}

#[test]
fn head_is_first_body_cell_and_body_stays_nonempty() {
    let mut snake = snake_at(
        vec![pos(100, 200), pos(100, 220), pos(100, 240)],
        Direction::Up,
        0,
    );
    assert_eq!(snake.head(), pos(100, 200));
    advance_one_tick(&mut snake);
    assert_eq!(snake.head(), snake.body[0]);
    assert!(snake.len() >= 1);
}

#[test]
fn wrap_around_at_all_four_edges() {
    // Right edge: the last column wraps to column 0, row unchanged.
    assert_eq!(step(pos(WIDTH - CELL, 400), Direction::Right), pos(0, 400));
    // Left edge.
    assert_eq!(step(pos(0, 400), Direction::Left), pos(WIDTH - CELL, 400));
    // Bottom edge.
    assert_eq!(step(pos(400, HEIGHT - CELL), Direction::Down), pos(400, 0));
    // Top edge.
    assert_eq!(step(pos(400, 0), Direction::Up), pos(400, HEIGHT - CELL));
    // Away from the edges no wrapping happens.
    assert_eq!(step(pos(400, 400), Direction::Right), pos(420, 400));
}

#[test]
fn advance_wraps_the_head_at_the_right_edge() {
    let mut snake = snake_at(
        vec![pos(WIDTH - CELL, 400), pos(WIDTH - 2 * CELL, 400)],
        Direction::Right,
        0,
    );
    advance_one_tick(&mut snake);
    assert_eq!(snake.head(), pos(0, 400));
    assert_eq!(snake.body[1], pos(WIDTH - CELL, 400));
}

#[test]
fn opposite_direction_is_rejected() {
    let mut snake = Snake::new(3);
    assert_eq!(snake.heading, Direction::Up);
    snake.set_direction(Direction::Down);
    assert_eq!(snake.heading, Direction::Up);
}

#[test]
fn perpendicular_directions_are_accepted() {
    let mut snake = Snake::new(3);
    snake.set_direction(Direction::Left);
    assert_eq!(snake.heading, Direction::Left);
    let mut snake = Snake::new(3);
    snake.set_direction(Direction::Right);
    assert_eq!(snake.heading, Direction::Right);
}

#[test]
fn last_accepted_direction_wins_between_ticks() {
    let mut snake = Snake::new(3);
    snake.set_direction(Direction::Left);
    snake.set_direction(Direction::Right);
    // Right is the opposite of Left now, so it is rejected ...
    assert_eq!(snake.heading, Direction::Left);
    snake.set_direction(Direction::Down);
    // ... while a later perpendicular request overwrites the latch.
    assert_eq!(snake.heading, Direction::Down);
}

#[test]
fn grow_duplicates_the_tail() {
    let mut snake = snake_at(
        vec![pos(100, 100), pos(100, 120), pos(100, 140)],
        Direction::Up,
        0,
    );
    snake.grow();
    assert_eq!(snake.len(), 4);
    assert_eq!(snake.body[3], pos(100, 140));
    // The rest of the body is untouched.
    assert_eq!(snake.body[0], pos(100, 100));
    assert_eq!(snake.body[1], pos(100, 120));
    assert_eq!(snake.body[2], pos(100, 140));
}

#[test]
fn food_match_is_exact_equality_only() {
    let head = pos(400, 400);
    let mut snake = snake_at(vec![head, pos(400, 420)], Direction::Up, 0);
    // One unit off in any coordinate is a miss.
    assert!(!snake.ate_food(&pos(401, 400)));
    assert!(!snake.ate_food(&pos(399, 400)));
    assert!(!snake.ate_food(&pos(400, 401)));
    assert!(!snake.ate_food(&pos(400, 399)));
    // One full cell off is a miss too.
    assert!(!snake.ate_food(&pos(420, 400)));
    assert_eq!(snake.len(), 2);
    // The exact cell is a hit and grows the snake.
    assert!(snake.ate_food(&head));
    assert_eq!(snake.len(), 3);
}

#[test]
fn grace_period_skips_the_first_checks() {
    let mut snake = Snake::new(3);
    // spawn_grace = initial_length + 1 = 4: four checks are skipped.
    for _ in 0..4 {
        assert!(!snake.has_collided());
    }
    // The fifth call performs a real scan; the segments still overlap at the
    // spawn cell, so it reports a collision.
    assert!(snake.has_collided());
}

#[test]
fn self_collision_is_detected_after_grace() {
    let overlapping = snake_at(
        vec![pos(400, 400), pos(400, 420), pos(400, 400)],
        Direction::Up,
        0,
    );
    let mut snake = overlapping;
    assert!(snake.has_collided());

    let mut snake = snake_at(
        vec![pos(400, 400), pos(400, 420), pos(400, 440)],
        Direction::Up,
        0,
    );
    assert!(!snake.has_collided());
}

#[test]
fn collision_check_is_idempotent_after_grace() {
    let mut snake = snake_at(
        vec![pos(400, 400), pos(400, 420), pos(400, 400)],
        Direction::Up,
        0,
    );
    for _ in 0..5 {
        assert!(snake.has_collided());
    }
    let mut snake = snake_at(
        vec![pos(400, 400), pos(400, 420), pos(400, 440)],
        Direction::Up,
        0,
    );
    for _ in 0..5 {
        assert!(!snake.has_collided());
    }
}

#[test]
fn four_ticks_move_the_head_four_cells_up() {
    let mut snake = Snake::new(3);
    for _ in 0..4 {
        advance_one_tick(&mut snake);
    }
    let cx = WIDTH / 2;
    let cy = HEIGHT / 2;
    assert_eq!(snake.head(), pos(cx, cy - 4 * CELL));
    // All segments trail at one-cell spacing.
    assert_eq!(snake.body[1], pos(cx, cy - 3 * CELL));
    assert_eq!(snake.body[2], pos(cx, cy - 2 * CELL));
    assert_eq!(snake.len(), 3);
}

#[test]
fn a_step_fires_once_per_interval_of_calls() {
    let mut snake = Snake::new(3);
    let start = snake.head();
    // The countdown starts full: the first TICK_INTERVAL calls do not move.
    for _ in 0..TICK_INTERVAL {
        snake.advance();
        assert_eq!(snake.head(), start);
    }
    // The next call fires the step.
    snake.advance();
    assert_eq!(snake.head(), pos(start.x, start.y - CELL));
}
