use snake_game::driver::{pacing_sleep, tick, Phase, FRAME_BUDGET_NANOS, INPUT_TIMEOUT_MILLIS};
use snake_game::game::{Food, Game, Snake};
use snake_game::grid::Direction;
use snake_game::input::Key;
use snake_game::render::{draw_game, Paint, Tile};

#[test]
fn budget_and_timeout_are_a_tenth_of_a_second() {
    assert_eq!(FRAME_BUDGET_NANOS, 100_000_000);
    assert_eq!(INPUT_TIMEOUT_MILLIS, 100);
}

#[test]
fn loop_runs_until_the_game_is_over() {
    let mut g = Game::new();
    assert_eq!(g.phase(), Phase::Running);
    g.game_over = true;
    assert_eq!(g.phase(), Phase::Stopped);
}

#[test]
fn pacing_sleep_is_what_is_left_of_the_budget() {
    assert_eq!(pacing_sleep(0), 100_000_000);
    assert_eq!(pacing_sleep(1), 99_999_999);
    assert_eq!(pacing_sleep(30_000_000), 70_000_000);
    assert_eq!(pacing_sleep(99_999_999), 1);
}

#[test]
fn pacing_sleep_is_nothing_once_the_budget_is_spent() {
    assert_eq!(pacing_sleep(100_000_000), 0);
    assert_eq!(pacing_sleep(100_000_001), 0);
    assert_eq!(pacing_sleep(250_000_000), 0);
    assert_eq!(pacing_sleep(1u128 << 64), 0);
    assert_eq!(pacing_sleep(u128::MAX), 0);
}

#[test]
fn tick_steers_then_moves_then_draws() {
    let mut g = Game::new();
    let ops = tick(&mut g, Some(Key::Down));
    assert_eq!(g.direction, Direction::Down);
    assert_eq!(g.snake.body, vec![(2, 3), (2, 2), (3, 2)]);
    assert!(!g.game_over);
    assert_eq!(ops, draw_game(&g));
    assert_eq!(ops[..3], [Paint::Clear, Paint::HideCursor, Paint::Home]);
    let frame = g.render_frame();
    assert_eq!(frame.rows[3][2], Tile::Snake);
    assert_eq!(frame.rows[2][2], Tile::Snake);
    assert_eq!(frame.rows[2][3], Tile::Snake);
    assert_eq!(frame.rows[2][4], Tile::Empty);
    assert_eq!(frame.rows[10][10], Tile::Food);
}

#[test]
fn tick_without_a_key_only_moves() {
    let mut g = Game {
        snake: Snake { body: vec![(4, 2), (3, 2), (2, 2)] },
        food: Food { x: 10, y: 10 },
        direction: Direction::Right,
        game_over: false,
    };
    let ops = tick(&mut g, None);
    assert_eq!(g.snake.body, vec![(5, 2), (4, 2), (3, 2)]);
    assert_eq!(g.direction, Direction::Right);
    assert_eq!(ops, g.render_frame().paints());
    let frame = g.render_frame();
    assert_eq!(frame.rows[2][5], Tile::Snake);
    assert_eq!(frame.rows[2][2], Tile::Empty);
}

#[test]
fn tick_with_the_quit_key_still_moves_the_snake_once() {
    let mut g = Game {
        snake: Snake { body: vec![(4, 2), (3, 2), (2, 2)] },
        food: Food { x: 10, y: 10 },
        direction: Direction::Right,
        game_over: false,
    };
    let _ = tick(&mut g, Some(Key::Char('q')));
    assert!(g.game_over);
    assert_eq!(g.phase(), Phase::Stopped);
    assert_eq!(g.snake.body, vec![(5, 2), (4, 2), (3, 2)]);
}

#[test]
fn tick_ignores_a_turn_straight_back() {
    let mut g = Game {
        snake: Snake { body: vec![(4, 2), (3, 2), (2, 2)] },
        food: Food { x: 10, y: 10 },
        direction: Direction::Right,
        game_over: false,
    };
    let _ = tick(&mut g, Some(Key::Left));
    assert_eq!(g.direction, Direction::Right);
    assert_eq!(g.snake.body, vec![(5, 2), (4, 2), (3, 2)]);
    assert!(!g.game_over);
}

#[test]
fn a_played_run_ends_at_the_wall() {
    let mut g = Game {
        snake: Snake { body: vec![(36, 2), (35, 2), (34, 2)] },
        food: Food { x: 1, y: 19 },
        direction: Direction::Right,
        game_over: false,
    };
    let mut rounds = 0;
    while g.phase() == Phase::Running {
        let _ = tick(&mut g, None);
        rounds += 1;
        assert!(rounds <= 4);
    }
    assert_eq!(rounds, 4);
    assert_eq!(g.snake.body, vec![(39, 2), (38, 2), (37, 2)]);
}
