use snake_game::direction::{Direction, Position};
use snake_game::engine::{Action, GameEngine, GameState, INITIAL_LENGTH, MOVE_INTERVAL};
use snake_game::grid::{Cell, GameError};

fn pos(x: i32, y: i32) -> Position {
    Position::new(x, y)
}

fn playing(head: Position, body: Vec<Position>, direction: Direction, food: Position) -> GameEngine {
    GameEngine::from_parts(20, 10, head, body, direction, food).unwrap()
}

fn cell(g: &GameEngine, x: i32, y: i32) -> Cell {
    g.grid().get_cell(x, y).unwrap()
}

#[test]
fn engine_rejects_bad_sizes() {
    assert_eq!(GameEngine::new(0, 10).err(), Some(GameError::InvalidDimensions));
    assert_eq!(GameEngine::new(20, -1).err(), Some(GameError::InvalidDimensions));
    assert_eq!(GameEngine::new(17, 10).err(), Some(GameError::InvalidDimensions));
    assert!(GameEngine::new(18, 1).is_ok());
}

#[test]
fn engine_starts_in_menu_with_empty_grid() {
    let g = GameEngine::new(32, 32).unwrap();
    assert_eq!(g.state(), GameState::Menu);
    assert_eq!(g.current_score(), 0);
    assert_eq!(g.best_score(), 0);
    assert_eq!(g.world_size(), (32, 32));
    for y in 0..32 {
        for x in 0..32 {
            assert_eq!(cell(&g, x, y), Cell::Empty);
        }
    }
}

#[test]
fn start_places_snake_left_of_center() {
    let mut g = GameEngine::new(32, 24).unwrap();
    g.process_action_with(Action::MoveUp, pos(1, 1));
    assert_eq!(g.state(), GameState::Menu);
    g.process_action_with(Action::Start, pos(1, 1));
    assert_eq!(g.state(), GameState::Playing);
    assert_eq!(g.head(), pos(16, 12));
    assert_eq!(g.direction(), Direction::Right);
    assert_eq!(g.body().len(), (INITIAL_LENGTH - 1) as usize);
    for (i, seg) in g.body().iter().enumerate() {
        assert_eq!(*seg, pos(16 - (i as i32 + 1), 12));
    }
    assert_eq!(g.food(), pos(1, 1));
    assert_eq!(cell(&g, 16, 12), Cell::SnakeHead);
    assert_eq!(cell(&g, 15, 12), Cell::SnakeBody);
    assert_eq!(cell(&g, 7, 12), Cell::SnakeBody);
    assert_eq!(cell(&g, 6, 12), Cell::Empty);
    assert_eq!(cell(&g, 17, 12), Cell::Empty);
    assert_eq!(cell(&g, 1, 1), Cell::Food);
}

#[test]
fn from_parts_rejects_bad_layouts() {
    let body = vec![pos(9, 5), pos(8, 5)];
    let bad = |head: Position, body: Vec<Position>, food: Position| {
        GameEngine::from_parts(20, 10, head, body, Direction::Right, food).err()
    };
    assert_eq!(bad(pos(20, 5), body.clone(), pos(0, 0)), Some(GameError::InvalidLayout));
    assert_eq!(bad(pos(10, 5), body.clone(), pos(0, 10)), Some(GameError::InvalidLayout));
    assert_eq!(bad(pos(10, 5), vec![], pos(0, 0)), Some(GameError::InvalidLayout));
    assert_eq!(bad(pos(10, 5), vec![pos(9, 5), pos(9, -1)], pos(0, 0)), Some(GameError::InvalidLayout));
    assert_eq!(bad(pos(10, 5), vec![pos(9, 5), pos(10, 5)], pos(0, 0)), Some(GameError::InvalidLayout));
    assert_eq!(
        GameEngine::from_parts(10, 10, pos(1, 1), body, Direction::Right, pos(0, 0)).err(),
        Some(GameError::InvalidDimensions)
    );
}

#[test]
fn reverse_direction_is_refused() {
    let mut g = playing(pos(10, 5), vec![pos(9, 5), pos(8, 5)], Direction::Right, pos(0, 0));
    g.try_set_direction(Direction::Left);
    assert_eq!(g.direction(), Direction::Right);
    g.try_set_direction(Direction::Up);
    assert_eq!(g.direction(), Direction::Up);
    g.try_set_direction(Direction::Down);
    assert_eq!(g.direction(), Direction::Up);
    g.try_set_direction(Direction::Left);
    assert_eq!(g.direction(), Direction::Left);
    g.try_set_direction(Direction::Right);
    assert_eq!(g.direction(), Direction::Left);
}

#[test]
fn plain_step_shifts_body() {
    let mut g = playing(pos(10, 5), vec![pos(9, 5), pos(8, 5), pos(7, 5)], Direction::Right, pos(15, 2));
    g.move_snake_with(pos(0, 0));
    assert_eq!(g.head(), pos(11, 5));
    assert_eq!(*g.body(), vec![pos(10, 5), pos(9, 5), pos(8, 5)]);
    assert_eq!(g.current_score(), 0);
    assert_eq!(g.food(), pos(15, 2));
    assert_eq!(g.state(), GameState::Playing);
    assert_eq!(cell(&g, 11, 5), Cell::SnakeHead);
    assert_eq!(cell(&g, 10, 5), Cell::SnakeBody);
    assert_eq!(cell(&g, 8, 5), Cell::SnakeBody);
    assert_eq!(cell(&g, 7, 5), Cell::Empty);
    assert_eq!(cell(&g, 15, 2), Cell::Food);
    assert_eq!(cell(&g, 0, 0), Cell::Empty);
}

#[test]
fn eating_grows_and_scores() {
    let mut g = playing(pos(10, 5), vec![pos(9, 5), pos(8, 5), pos(7, 5)], Direction::Right, pos(11, 5));
    g.move_snake_with(pos(3, 3));
    assert_eq!(g.head(), pos(11, 5));
    assert_eq!(*g.body(), vec![pos(10, 5), pos(9, 5), pos(8, 5), pos(7, 5)]);
    assert_eq!(g.current_score(), 1);
    assert_eq!(g.food(), pos(3, 3));
    assert_eq!(cell(&g, 7, 5), Cell::SnakeBody);
    assert_eq!(cell(&g, 3, 3), Cell::Food);
    assert_eq!(cell(&g, 11, 5), Cell::SnakeHead);
}

#[test]
fn self_collision_ends_game_unchanged() {
    let body = vec![pos(9, 5), pos(9, 4), pos(10, 4), pos(11, 4)];
    let mut g = playing(pos(10, 5), body.clone(), Direction::Up, pos(15, 2));
    let cells: Vec<Cell> = (0..10).flat_map(|y| (0..20).map(move |x| (x, y))).map(|(x, y)| cell(&g, x, y)).collect();
    g.move_snake_with(pos(0, 0));
    assert_eq!(g.state(), GameState::GameOver);
    assert_eq!(g.head(), pos(10, 5));
    assert_eq!(*g.body(), body);
    assert_eq!(g.food(), pos(15, 2));
    let after: Vec<Cell> = (0..10).flat_map(|y| (0..20).map(move |x| (x, y))).map(|(x, y)| cell(&g, x, y)).collect();
    assert_eq!(cells, after);
}

#[test]
fn moving_into_the_tail_cell_collides() {
    let mut g = playing(pos(10, 5), vec![pos(9, 5), pos(9, 4), pos(10, 4)], Direction::Up, pos(15, 2));
    g.move_snake_with(pos(0, 0));
    assert_eq!(g.state(), GameState::GameOver);
    assert_eq!(g.head(), pos(10, 5));
}

#[test]
fn engine_wraps_around_edges() {
    let mut g = playing(pos(19, 5), vec![pos(18, 5)], Direction::Right, pos(0, 0));
    g.move_snake_with(pos(1, 1));
    assert_eq!(g.head(), pos(0, 5));
    let mut g = playing(pos(5, 0), vec![pos(5, 1)], Direction::Up, pos(0, 0));
    g.move_snake_with(pos(1, 1));
    assert_eq!(g.head(), pos(5, 9));
}

#[test]
fn best_score_updates_on_end() {
    let mut g = playing(pos(5, 5), vec![pos(4, 5)], Direction::Right, pos(6, 5));
    for k in 0..5 {
        g.move_snake_with(pos(7 + k, 5));
    }
    assert_eq!(g.current_score(), 5);
    assert_eq!(g.best_score(), 0);
    g.end_game();
    assert_eq!(g.state(), GameState::Ended);
    assert_eq!(g.best_score(), 5);

    g.start_game_with(pos(11, 5));
    assert_eq!(g.current_score(), 0);
    assert_eq!(g.best_score(), 5);
    g.move_snake_with(pos(12, 5));
    g.move_snake_with(pos(0, 0));
    assert_eq!(g.current_score(), 2);
    g.process_action_with(Action::End, pos(0, 0));
    assert_eq!(g.state(), GameState::Ended);
    assert_eq!(g.best_score(), 5);
}

#[test]
fn best_score_from_three_to_five() {
    let mut g = playing(pos(5, 5), vec![pos(4, 5)], Direction::Right, pos(6, 5));
    for k in 0..3 {
        g.move_snake_with(pos(7 + k, 5));
    }
    g.end_game();
    assert_eq!(g.best_score(), 3);
    g.start_game_with(pos(11, 5));
    for k in 0..5 {
        g.move_snake_with(pos(12 + k, 5));
    }
    assert_eq!(g.current_score(), 5);
    g.end_game();
    assert_eq!(g.best_score(), 5);
}

#[test]
fn game_over_records_best_score() {
    let mut g = playing(pos(10, 5), vec![pos(9, 5), pos(9, 4), pos(10, 4)], Direction::Right, pos(11, 5));
    g.move_snake_with(pos(11, 4));
    g.try_set_direction(Direction::Up);
    g.move_snake_with(pos(0, 0));
    assert_eq!(g.current_score(), 2);
    g.try_set_direction(Direction::Left);
    g.move_snake_with(pos(0, 0));
    assert_eq!(g.state(), GameState::GameOver);
    assert_eq!(g.best_score(), 2);
}

#[test]
fn paused_game_ignores_moves() {
    let mut g = playing(pos(10, 5), vec![pos(9, 5), pos(8, 5)], Direction::Right, pos(0, 0));
    g.process_action_with(Action::Pause, pos(0, 0));
    assert_eq!(g.state(), GameState::Paused);
    for a in [Action::MoveUp, Action::MoveDown, Action::MoveLeft, Action::MoveRight] {
        g.process_action_with(a, pos(0, 0));
        assert_eq!(g.direction(), Direction::Right);
        assert_eq!(g.head(), pos(10, 5));
        assert_eq!(*g.body(), vec![pos(9, 5), pos(8, 5)]);
    }
    g.tick_with(MOVE_INTERVAL * 3, pos(0, 0));
    assert_eq!(g.head(), pos(10, 5));
    g.process_action_with(Action::Continue, pos(0, 0));
    assert_eq!(g.state(), GameState::Playing);
}

#[test]
fn playing_accepts_moves_and_pause() {
    let mut g = playing(pos(10, 5), vec![pos(9, 5)], Direction::Right, pos(0, 0));
    g.process_action_with(Action::MoveDown, pos(0, 0));
    assert_eq!(g.direction(), Direction::Down);
    g.process_action_with(Action::MoveUp, pos(0, 0));
    assert_eq!(g.direction(), Direction::Down);
    g.process_action_with(Action::Start, pos(0, 0));
    assert_eq!(g.state(), GameState::Playing);
    assert_eq!(g.head(), pos(10, 5));
}

#[test]
fn tick_moves_once_per_interval() {
    let mut g = playing(pos(10, 5), vec![pos(9, 5)], Direction::Right, pos(0, 0));
    g.tick_with(30000, pos(0, 0));
    assert_eq!(g.head(), pos(10, 5));
    g.tick_with(20000, pos(0, 0));
    assert_eq!(g.head(), pos(11, 5));
    g.tick_with(10, pos(0, 0));
    assert_eq!(g.head(), pos(11, 5));
    g.tick_with(MOVE_INTERVAL * 5, pos(0, 0));
    assert_eq!(g.head(), pos(12, 5));
}

#[test]
fn tick_outside_play_does_nothing() {
    let mut g = GameEngine::new(20, 10).unwrap();
    let head = g.head();
    g.tick_with(MOVE_INTERVAL * 2, pos(0, 0));
    assert_eq!(g.head(), head);
    assert_eq!(g.state(), GameState::Menu);
}

#[test]
fn game_over_continue_restarts() {
    let mut g = playing(pos(10, 5), vec![pos(9, 5), pos(9, 4), pos(10, 4)], Direction::Up, pos(15, 2));
    g.move_snake_with(pos(0, 0));
    assert_eq!(g.state(), GameState::GameOver);
    g.process_action_with(Action::MoveLeft, pos(0, 0));
    assert_eq!(g.state(), GameState::GameOver);
    g.process_action_with(Action::Continue, pos(2, 2));
    assert_eq!(g.state(), GameState::Playing);
    assert_eq!(g.head(), pos(10, 5));
    assert_eq!(g.body().len(), 9);
    assert_eq!(g.direction(), Direction::Right);
    assert_eq!(g.food(), pos(2, 2));
}

#[test]
fn ended_game_ignores_actions() {
    let mut g = playing(pos(10, 5), vec![pos(9, 5)], Direction::Right, pos(0, 0));
    g.process_action_with(Action::End, pos(0, 0));
    for a in [Action::Start, Action::Continue, Action::Restart, Action::Pause, Action::MoveUp] {
        g.process_action_with(a, pos(0, 0));
        assert_eq!(g.state(), GameState::Ended);
    }
}

#[test]
fn random_food_stays_on_grid() {
    let mut g = GameEngine::new(18, 1).unwrap();
    for _ in 0..200 {
        g.start_game();
        let f = g.food();
        assert!(f.x >= 0 && f.x < 18 && f.y == 0);
    }
    let mut g = GameEngine::new(20, 3).unwrap();
    g.process_action(Action::Start);
    assert_eq!(g.state(), GameState::Playing);
    let f = g.food();
    assert!(f.x >= 0 && f.x < 20 && f.y >= 0 && f.y < 3);
    g.tick(MOVE_INTERVAL);
    assert_eq!(g.head(), pos(11, 1));
    g.restart_game();
    assert_eq!(g.head(), pos(10, 1));
}
