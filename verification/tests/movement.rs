use snake_game::{
    move_snake, spawn_snake_tile, Board, Direction, DirectionIntents, Game, GameState, Position,
    TickReport, STEP_INTERVAL,
};

fn at(i: usize, j: usize) -> Position {
    Position { i, j }
}

fn no_keys() -> DirectionIntents {
    DirectionIntents { up: false, down: false, right: false, left: false }
}

/// A running round on the 10 by 10 board whose next tick steps at once.
fn round(
    cells: &[(usize, usize)],
    heading: Direction,
    apple: Option<(usize, usize)>,
) -> Game {
    let segments: Vec<Position> = cells.iter().map(|c| at(c.0, c.1)).collect();
    let rendered = segments.len();
    Game::from_parts(
        Board { rows: 10, cols: 10 },
        segments,
        heading,
        heading,
        rendered,
        0,
        apple.map(|a| at(a.0, a.1)),
        GameState::Playing,
    )
    .unwrap()
}

fn cells(game: &Game) -> Vec<(usize, usize)> {
    game.segments().iter().map(|p| (p.i, p.j)).collect()
}

#[test]
fn step_right_without_input_moves_head_one_column() {
    let mut game = Game::from_parts(
        Board { rows: 10, cols: 10 },
        vec![at(5, 5)],
        Direction::Right,
        Direction::Right,
        1,
        STEP_INTERVAL,
        None,
        GameState::Playing,
    )
    .unwrap();
    let report = move_snake(&mut game, STEP_INTERVAL, no_keys());
    assert_eq!(
        report,
        TickReport {
            head: at(5, 6),
            stepped: true,
            collided: false,
            ate_apple: false,
            growth_owed: false,
        }
    );
    assert_eq!(cells(&game), vec![(5, 6)]);
    assert_eq!(game.logical_length(), 1);
    assert_eq!(game.rendered_length(), 1);
    assert_eq!(game.heading(), Direction::Right);
    assert_eq!(game.state(), GameState::Playing);
}

#[test]
fn step_onto_apple_eats_and_extends_tail() {
    let mut game = round(&[(5, 6), (5, 5)], Direction::Right, Some((5, 7)));
    let report = move_snake(&mut game, 0, no_keys());
    assert_eq!(report.head, at(5, 7));
    assert!(report.stepped);
    assert!(report.ate_apple);
    assert!(!report.collided);
    assert!(report.growth_owed);
    assert_eq!(game.logical_length(), 3);
    assert_eq!(game.rendered_length(), 2);
    assert_eq!(cells(&game), vec![(5, 7), (5, 6), (5, 5)]);
    assert_eq!(game.apple(), None);
}

#[test]
fn apple_under_the_head_is_left_behind() {
    // The apple is looked for under the head after the move, so an apple on
    // the cell the head starts from is stepped off, not eaten.
    let mut game = round(&[(5, 6), (5, 5)], Direction::Right, Some((5, 6)));
    let report = move_snake(&mut game, 0, no_keys());
    assert_eq!(report.head, at(5, 7));
    assert!(report.stepped);
    assert!(!report.ate_apple);
    assert!(!report.growth_owed);
    assert_eq!(game.logical_length(), 2);
    assert_eq!(cells(&game), vec![(5, 7), (5, 6)]);
    assert_eq!(game.apple(), Some(at(5, 6)));
}

#[test]
fn reversal_on_the_same_tick_is_rejected() {
    let mut game = round(&[(5, 5)], Direction::Up, None);
    let report = move_snake(&mut game, 0, DirectionIntents::only(Direction::Down));
    assert_eq!(game.heading(), Direction::Up);
    assert_eq!(game.pending_heading(), Direction::Down);
    assert_eq!(report.head, at(6, 5));
}

#[test]
fn reversal_is_rejected_for_every_heading() {
    let pairs = [
        (Direction::Up, Direction::Down, (6, 5)),
        (Direction::Down, Direction::Up, (4, 5)),
        (Direction::Left, Direction::Right, (5, 4)),
        (Direction::Right, Direction::Left, (5, 6)),
    ];
    for (heading, asked, expected) in pairs {
        assert_eq!(heading.reversed(), asked);
        let mut game = round(&[(5, 5), (0, 0)], heading, None);
        let report = move_snake(&mut game, 0, DirectionIntents::only(asked));
        assert_eq!(game.heading(), heading);
        assert_eq!(report.head, at(expected.0, expected.1));
    }
}

#[test]
fn heading_is_never_reversed_over_a_long_run() {
    let keys = [Direction::Up, Direction::Left, Direction::Down, Direction::Right, Direction::Down];
    let mut game = Game::new();
    let mut n: usize = 0;
    while n < 400 && game.state() == GameState::Playing {
        let before = game.heading();
        let asked = keys[(n * 7 + n / 3) % keys.len()];
        let report = move_snake(&mut game, 150_000_000, DirectionIntents::only(asked));
        assert_ne!(game.heading(), before.reversed());
        if !report.stepped {
            assert_eq!(game.heading(), before);
        }
        assert!(report.head.i < 10 && report.head.j < 10);
        assert!(game.rendered_length() <= game.logical_length());
        n += 1;
    }
}

#[test]
fn perpendicular_turn_is_committed() {
    let mut game = round(&[(5, 5), (5, 4)], Direction::Right, None);
    let report = move_snake(&mut game, 0, DirectionIntents::only(Direction::Up));
    assert_eq!(game.heading(), Direction::Up);
    assert_eq!(report.head, at(6, 5));
    assert_eq!(cells(&game), vec![(6, 5), (5, 5)]);
}

#[test]
fn head_wraps_at_every_edge() {
    let cases = [
        (Direction::Up, (9, 3), (0, 3)),
        (Direction::Down, (0, 3), (9, 3)),
        (Direction::Right, (3, 9), (3, 0)),
        (Direction::Left, (3, 0), (3, 9)),
    ];
    for (heading, from, to) in cases {
        let mut game = round(&[from], heading, None);
        let report = move_snake(&mut game, 0, no_keys());
        assert_eq!(report.head, at(to.0, to.1));
        assert_eq!(game.head(), at(to.0, to.1));
    }
}

#[test]
fn head_moves_one_cell_away_from_the_edges() {
    let cases = [
        (Direction::Up, (4, 4), (5, 4)),
        (Direction::Down, (4, 4), (3, 4)),
        (Direction::Right, (4, 4), (4, 5)),
        (Direction::Left, (4, 4), (4, 3)),
    ];
    for (heading, from, to) in cases {
        let mut game = round(&[from], heading, None);
        let report = move_snake(&mut game, 0, no_keys());
        assert_eq!(report.head, at(to.0, to.1));
    }
}

#[test]
fn body_follows_the_head() {
    let mut game = round(&[(5, 5), (5, 4), (5, 3), (4, 3)], Direction::Right, None);
    move_snake(&mut game, 0, DirectionIntents::only(Direction::Up));
    assert_eq!(cells(&game), vec![(6, 5), (5, 5), (5, 4), (5, 3)]);
    move_snake(&mut game, STEP_INTERVAL, DirectionIntents::only(Direction::Left));
    assert_eq!(cells(&game), vec![(6, 4), (6, 5), (5, 5), (5, 4)]);
}

#[test]
fn cooldown_counts_down_and_restarts_on_a_step() {
    let mut game = Game::new();
    assert_eq!(game.move_cooldown(), 300_000_000);
    let first = move_snake(&mut game, 100_000_000, no_keys());
    assert!(!first.stepped);
    assert_eq!(first.head, at(5, 6));
    assert_eq!(game.move_cooldown(), 200_000_000);
    let second = move_snake(&mut game, 199_999_999, no_keys());
    assert!(!second.stepped);
    assert_eq!(game.move_cooldown(), 1);
    let third = move_snake(&mut game, 1, no_keys());
    assert!(third.stepped);
    assert_eq!(third.head, at(5, 7));
    assert_eq!(game.move_cooldown(), STEP_INTERVAL);
}

#[test]
fn time_beyond_the_cooldown_is_not_carried_over() {
    let mut game = Game::new();
    let report = move_snake(&mut game, 1_000_000_000, no_keys());
    assert!(report.stepped);
    assert_eq!(report.head, at(5, 7));
    assert_eq!(game.move_cooldown(), STEP_INTERVAL);
    let next = move_snake(&mut game, STEP_INTERVAL - 1, no_keys());
    assert!(!next.stepped);
}

#[test]
fn tick_without_time_does_not_step_a_fresh_round() {
    let mut game = Game::new();
    let report = move_snake(&mut game, 0, no_keys());
    assert!(!report.stepped);
    assert_eq!(game, Game::new());
}

#[test]
fn key_pressed_between_steps_is_kept() {
    let mut game = Game::new();
    let early = move_snake(&mut game, 1_000, DirectionIntents::only(Direction::Up));
    assert!(!early.stepped);
    assert_eq!(game.pending_heading(), Direction::Up);
    assert_eq!(game.heading(), Direction::Right);
    let late = move_snake(&mut game, STEP_INTERVAL, no_keys());
    assert!(late.stepped);
    assert_eq!(game.heading(), Direction::Up);
    assert_eq!(late.head, at(6, 6));
}

#[test]
fn later_key_overwrites_earlier_one() {
    let mut game = Game::new();
    move_snake(&mut game, 1_000, DirectionIntents::only(Direction::Up));
    move_snake(&mut game, 1_000, DirectionIntents::only(Direction::Down));
    assert_eq!(game.pending_heading(), Direction::Down);
    let report = move_snake(&mut game, STEP_INTERVAL, no_keys());
    assert_eq!(game.heading(), Direction::Down);
    assert_eq!(report.head, at(4, 6));
}

#[test]
fn keys_are_read_in_the_order_up_down_right_left() {
    let all = DirectionIntents { up: true, down: true, right: true, left: true };
    assert_eq!(all.pick(), Some(Direction::Up));
    let three = DirectionIntents { up: false, down: true, right: true, left: true };
    assert_eq!(three.pick(), Some(Direction::Down));
    let two = DirectionIntents { up: false, down: false, right: true, left: true };
    assert_eq!(two.pick(), Some(Direction::Right));
    let one = DirectionIntents { up: false, down: false, right: false, left: true };
    assert_eq!(one.pick(), Some(Direction::Left));
    assert_eq!(no_keys().pick(), None);
    assert_eq!(DirectionIntents::none(), no_keys());
    assert_eq!(DirectionIntents::only(Direction::Right), DirectionIntents {
        up: false,
        down: false,
        right: true,
        left: false
    });
}

#[test]
fn opposite_keys_in_one_tick_leave_one_request() {
    let mut game = round(&[(5, 5)], Direction::Right, None);
    let both = DirectionIntents { up: true, down: true, right: false, left: false };
    let report = move_snake(&mut game, 0, both);
    assert_eq!(game.pending_heading(), Direction::Up);
    assert_eq!(game.heading(), Direction::Up);
    assert_eq!(report.head, at(6, 5));
}

#[test]
fn running_into_the_body_ends_the_round_once() {
    let mut game = Game::from_parts(
        Board { rows: 10, cols: 10 },
        vec![at(5, 5), at(5, 6), at(6, 6), at(6, 5), at(6, 4)],
        Direction::Left,
        Direction::Up,
        5,
        0,
        None,
        GameState::Playing,
    )
    .unwrap();
    let report = move_snake(&mut game, 0, no_keys());
    assert!(report.stepped);
    assert!(report.collided);
    assert!(!report.ate_apple);
    assert_eq!(report.head, at(6, 5));
    assert_eq!(game.state(), GameState::GameOver);
    assert_eq!(cells(&game), vec![(6, 5), (5, 5), (5, 6), (6, 6), (6, 5)]);

    let frozen = game.clone();
    for keys in [no_keys(), DirectionIntents::only(Direction::Left)] {
        let later = move_snake(&mut game, STEP_INTERVAL, keys);
        assert!(!later.stepped);
        assert!(!later.collided);
        assert!(!later.ate_apple);
        assert_eq!(later.head, at(6, 5));
        assert_eq!(game, frozen);
    }
}

#[test]
fn step_next_to_the_body_does_not_collide() {
    let mut game = round(&[(5, 5), (5, 6), (6, 6), (6, 5)], Direction::Left, None);
    let report = move_snake(&mut game, 0, DirectionIntents::only(Direction::Up));
    // The head enters the cell the tail has just left.
    assert_eq!(report.head, at(6, 5));
    assert!(!report.collided);
    assert_eq!(game.state(), GameState::Playing);
    assert_eq!(cells(&game), vec![(6, 5), (5, 5), (5, 6), (6, 6)]);
}

#[test]
fn collision_takes_precedence_over_the_apple() {
    let mut game = Game::from_parts(
        Board { rows: 10, cols: 10 },
        vec![at(5, 5), at(5, 6), at(6, 6), at(6, 5), at(6, 4)],
        Direction::Left,
        Direction::Up,
        5,
        0,
        Some(at(6, 5)),
        GameState::Playing,
    )
    .unwrap();
    let report = move_snake(&mut game, 0, no_keys());
    assert!(report.collided);
    assert!(!report.ate_apple);
    assert!(!report.growth_owed);
    assert_eq!(game.state(), GameState::GameOver);
    assert_eq!(game.logical_length(), 5);
    assert_eq!(game.apple(), Some(at(6, 5)));
}

#[test]
fn new_tail_wraps_below_zero() {
    let mut game = round(&[(5, 0), (5, 9)], Direction::Right, Some((5, 1)));
    let report = move_snake(&mut game, 0, no_keys());
    assert!(report.ate_apple);
    assert_eq!(cells(&game), vec![(5, 1), (5, 0), (5, 9)]);
}

#[test]
fn new_tail_wraps_past_the_last_coordinate() {
    let mut game = round(&[(5, 9), (5, 0)], Direction::Left, Some((5, 8)));
    let report = move_snake(&mut game, 0, no_keys());
    assert!(report.ate_apple);
    assert_eq!(cells(&game), vec![(5, 8), (5, 9), (5, 0)]);
}

#[test]
fn new_tail_wraps_along_the_rows() {
    let mut up = round(&[(0, 2), (9, 2)], Direction::Up, Some((1, 2)));
    assert!(move_snake(&mut up, 0, no_keys()).ate_apple);
    assert_eq!(cells(&up), vec![(1, 2), (0, 2), (9, 2)]);

    let mut down = round(&[(9, 2), (0, 2)], Direction::Down, Some((8, 2)));
    assert!(move_snake(&mut down, 0, no_keys()).ate_apple);
    assert_eq!(cells(&down), vec![(8, 2), (9, 2), (0, 2)]);
}

#[test]
fn new_tail_follows_a_bend() {
    let mut game = round(&[(5, 5), (5, 4), (4, 4)], Direction::Right, Some((5, 6)));
    let report = move_snake(&mut game, 0, no_keys());
    assert!(report.ate_apple);
    // After the move the last two segments are (5, 5) and (5, 4).
    assert_eq!(cells(&game), vec![(5, 6), (5, 5), (5, 4), (5, 3)]);
}

#[test]
fn single_segment_grows_into_the_cell_behind_the_head() {
    let mut game = round(&[(5, 5)], Direction::Right, Some((5, 6)));
    let report = move_snake(&mut game, 0, no_keys());
    assert!(report.ate_apple);
    assert!(report.growth_owed);
    assert_eq!(cells(&game), vec![(5, 6), (5, 5)]);

    let mut turning = round(&[(0, 0)], Direction::Right, Some((9, 0)));
    let turned = move_snake(&mut turning, 0, DirectionIntents::only(Direction::Down));
    assert!(turned.ate_apple);
    assert_eq!(cells(&turning), vec![(9, 0), (0, 0)]);
}

#[test]
fn growth_is_handed_out_one_segment_per_call() {
    let mut game = round(&[(5, 6), (5, 5)], Direction::Right, Some((5, 7)));
    assert_eq!(spawn_snake_tile(&mut game), None);
    assert_eq!(game.rendered_length(), 2);
    move_snake(&mut game, 0, no_keys());
    assert_eq!(game.rendered_length(), 2);
    assert_eq!(game.logical_length(), 3);
    assert_eq!(spawn_snake_tile(&mut game), Some(at(5, 5)));
    assert_eq!(game.rendered_length(), 3);
    assert_eq!(spawn_snake_tile(&mut game), None);
    assert_eq!(game.rendered_length(), 3);
    assert_eq!(cells(&game), vec![(5, 7), (5, 6), (5, 5)]);
}

#[test]
fn several_owed_segments_take_several_calls() {
    let mut game = Game::from_parts(
        Board { rows: 10, cols: 10 },
        vec![at(2, 5), at(2, 4), at(2, 3), at(2, 2)],
        Direction::Right,
        Direction::Right,
        1,
        STEP_INTERVAL,
        None,
        GameState::Playing,
    )
    .unwrap();
    let before = cells(&game);
    assert_eq!(spawn_snake_tile(&mut game), Some(at(2, 4)));
    assert_eq!(game.rendered_length(), 2);
    assert_eq!(spawn_snake_tile(&mut game), Some(at(2, 3)));
    assert_eq!(game.rendered_length(), 3);
    assert_eq!(spawn_snake_tile(&mut game), Some(at(2, 2)));
    assert_eq!(game.rendered_length(), 4);
    assert_eq!(spawn_snake_tile(&mut game), None);
    assert_eq!(game.rendered_length(), 4);
    assert_eq!(cells(&game), before);
}

#[test]
fn eating_twice_adds_two_segments() {
    let mut game = round(&[(5, 6), (5, 5)], Direction::Right, Some((5, 7)));
    assert!(move_snake(&mut game, 0, no_keys()).ate_apple);
    assert!(snake_game::try_place_apple(&mut game, at(5, 8)));
    let second = move_snake(&mut game, STEP_INTERVAL, no_keys());
    assert!(second.ate_apple);
    assert_eq!(game.logical_length(), 4);
    assert_eq!(game.rendered_length(), 2);
    assert_eq!(cells(&game), vec![(5, 8), (5, 7), (5, 6), (5, 5)]);
    assert_eq!(spawn_snake_tile(&mut game), Some(at(5, 6)));
    assert_eq!(spawn_snake_tile(&mut game), Some(at(5, 5)));
    assert_eq!(spawn_snake_tile(&mut game), None);
}
