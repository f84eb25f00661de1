use snake_rust::clock::{TickClock, TICK_INTERVAL_MICROS};
use snake_rust::food::place_food;
use snake_rust::game::{Game, GameState};
use snake_rust::geometry::{in_bounds, Direction, Pos};
use snake_rust::snake::{Snake, MAX_SNAKE_LENGTH, START_LENGTH};

#[test]
fn playfield_bounds_are_20_20_to_620_460() {
    assert!(in_bounds(Pos { x: 20, y: 20 }));
    assert!(in_bounds(Pos { x: 619, y: 459 }));
    assert!(in_bounds(Pos { x: 320, y: 240 }));
    assert!(!in_bounds(Pos { x: 19, y: 240 }));
    assert!(!in_bounds(Pos { x: 620, y: 240 }));
    assert!(!in_bounds(Pos { x: 320, y: 19 }));
    assert!(!in_bounds(Pos { x: 320, y: 460 }));
}

#[test]
fn direction_vectors_scale_one_cell() {
    assert_eq!((Direction::Up.dx(), Direction::Up.dy()), (0, -20));
    assert_eq!((Direction::Down.dx(), Direction::Down.dy()), (0, 20));
    assert_eq!((Direction::Left.dx(), Direction::Left.dy()), (-20, 0));
    assert_eq!((Direction::Right.dx(), Direction::Right.dy()), (20, 0));
}

#[test]
fn initial_snake_is_centered_moving_right() {
    let s = Snake::initial();
    assert_eq!(s.length, START_LENGTH);
    assert_eq!(s.dir, Direction::Right);
    for i in 0..5 {
        assert_eq!(s.cells[i], Pos { x: 320 - 20 * i as i32, y: 240 });
    }
}

#[test]
fn set_direction_rejects_requests_on_the_current_axis() {
    let mut s = Snake::initial();
    s.set_direction(Direction::Left);
    assert_eq!(s.dir, Direction::Right);
    s.set_direction(Direction::Right);
    assert_eq!(s.dir, Direction::Right);
    s.set_direction(Direction::Up);
    assert_eq!(s.dir, Direction::Up);
    s.set_direction(Direction::Down);
    assert_eq!(s.dir, Direction::Up);
    s.set_direction(Direction::Up);
    assert_eq!(s.dir, Direction::Up);
    s.set_direction(Direction::Left);
    assert_eq!(s.dir, Direction::Left);
}

#[test]
fn advance_shifts_body_and_moves_head() {
    let mut s = Snake::initial();
    let before: Vec<Pos> = s.cells.clone();
    s.advance();
    assert_eq!(s.cells[0], Pos { x: 340, y: 240 });
    for i in 1..s.length {
        assert_eq!(s.cells[i], before[i - 1]);
    }
}

#[test]
fn grow_adds_one_segment_until_capacity() {
    let mut s = Snake::initial();
    s.grow();
    assert_eq!(s.length, START_LENGTH + 1);
    while s.length < MAX_SNAKE_LENGTH - 1 {
        let before = s.length;
        s.grow();
        assert_eq!(s.length, before + 1);
    }
    assert_eq!(s.length, MAX_SNAKE_LENGTH - 1);
    s.grow();
    assert_eq!(s.length, MAX_SNAKE_LENGTH - 1);
    s.grow();
    assert_eq!(s.length, MAX_SNAKE_LENGTH - 1);
}

#[test]
fn self_collision_detects_head_on_body() {
    let mut s = Snake::initial();
    assert!(!s.self_collision());
    // A tight U-turn: up, left, down lands the head on the body.
    s.set_direction(Direction::Up);
    s.advance();
    assert!(!s.self_collision());
    s.set_direction(Direction::Left);
    s.advance();
    assert!(!s.self_collision());
    s.set_direction(Direction::Down);
    s.advance();
    assert_eq!(s.cells[0], Pos { x: 300, y: 240 });
    assert!(s.self_collision());
}

#[test]
fn place_food_avoids_every_live_segment() {
    let s = Snake::initial();
    for _ in 0..200 {
        let p = place_food(&s);
        for i in 0..s.length {
            assert_ne!(p, s.cells[i]);
        }
        assert!(p.x >= 40 && p.x <= 600 && (p.x - 40) % 20 == 0);
        assert!(p.y >= 40 && p.y <= 440 && (p.y - 40) % 20 == 0);
    }
}

#[test]
fn place_food_actually_samples() {
    // Many placements on the same snake must not all agree: the cell really
    // comes from the random sampler, not from a fixed corner.
    let s = Snake::initial();
    let first = place_food(&s);
    let mut saw_other = false;
    for _ in 0..100 {
        if place_food(&s) != first {
            saw_other = true;
        }
    }
    assert!(saw_other);
}

#[test]
fn place_food_avoids_a_long_snake() {
    // Grow the snake to its cap; every live slot (most of them stale zeros
    // at (0, 0)) must still be avoided.
    let mut s = Snake::initial();
    while s.length < MAX_SNAKE_LENGTH - 1 {
        s.grow();
    }
    for _ in 0..50 {
        let p = place_food(&s);
        for i in 0..s.length {
            assert_ne!(p, s.cells[i]);
        }
    }
}

#[test]
fn clock_ticks_every_eighth_of_a_second() {
    assert_eq!(TICK_INTERVAL_MICROS, 125_000);
    let mut c = TickClock::new();
    assert!(!c.register_frame(124_999));
    assert!(c.register_frame(1));
    assert_eq!(c.accumulated_micros, 0);
}

#[test]
fn clock_hands_out_at_most_one_tick_per_frame() {
    let mut c = TickClock::new();
    // A long stall: two intervals arrive at once, only one tick comes out.
    assert!(c.register_frame(250_000));
    assert_eq!(c.accumulated_micros, 125_000);
    assert!(c.register_frame(0));
    assert_eq!(c.accumulated_micros, 0);
    assert!(!c.register_frame(0));
}

#[test]
fn new_game_matches_the_documented_start_state() {
    let g = Game::new();
    assert_eq!(g.state, GameState::Playing);
    assert_eq!(g.score, 0);
    assert_eq!(g.snake.length, 5);
    assert_eq!(g.snake.dir, Direction::Right);
    for i in 0..5 {
        assert_eq!(g.snake.cells[i], Pos { x: 320 - 20 * i as i32, y: 240 });
        assert_ne!(g.food, g.snake.cells[i]);
    }
}
