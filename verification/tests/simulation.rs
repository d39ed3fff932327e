use snake_game::food::Food;
use snake_game::game::{Direction, Game, KeyInput};
use snake_game::geometry::{Rgb, Vector2};
use snake_game::grid::Grid;
use snake_game::snake::Snake;

fn v(x: i32, y: i32) -> Vector2 {
    Vector2 { x, y }
}

fn gray() -> Rgb {
    Rgb { r: 128, g: 128, b: 128 }
}

fn test_snake(cells: Vec<Vector2>) -> Snake {
    Snake { body: cells, color: gray(), grow_color: gray() }
}

#[test]
fn snake_update_shifts_body() {
    let mut s = test_snake(vec![v(3, 3), v(3, 2), v(2, 2)]);
    s.update(v(1, 0));
    assert_eq!(s.body, vec![v(4, 3), v(3, 3), v(3, 2)]);
    s.update(v(0, 1));
    assert_eq!(s.body, vec![v(4, 4), v(4, 3), v(3, 3)]);
}

#[test]
fn snake_update_keeps_length() {
    let mut s = test_snake(vec![v(0, 0), v(1, 0), v(1, 1), v(2, 1)]);
    s.update(v(0, -1));
    assert_eq!(s.body.len(), 4);
    assert_eq!(s.body[0], v(0, -1));
}

#[test]
fn grow_duplicates_tail() {
    let mut s = test_snake(vec![v(1, 1), v(1, 2)]);
    s.grow();
    assert_eq!(s.body, vec![v(1, 1), v(1, 2), v(1, 2)]);
}

#[test]
fn grow_from_single_cell() {
    let mut s = Snake::new(7, 9, gray(), gray());
    s.grow();
    assert_eq!(s.body, vec![v(7, 9), v(7, 9)]);
}

#[test]
fn collision_false_for_distinct_cells() {
    let s = test_snake(vec![v(0, 0), v(1, 0), v(1, 1)]);
    assert!(!s.check_collision());
}

#[test]
fn collision_true_when_body_cell_equals_head() {
    let s = test_snake(vec![v(1, 1), v(1, 0), v(1, 1)]);
    assert!(s.check_collision());
}

#[test]
fn collision_ignores_non_head_duplicates() {
    let s = test_snake(vec![v(0, 0), v(2, 2), v(2, 2)]);
    assert!(!s.check_collision());
}

#[test]
fn reversal_guard_blocks_opposite() {
    let mut g = Game::new();
    g.handle_keydown(KeyInput::Left);
    g.handle_keydown(KeyInput::Right);
    assert_eq!(g.move_dir, v(-1, 0));
    assert_eq!(g.direction, Direction::Left);
}

#[test]
fn reversal_guard_allows_turn() {
    let mut g = Game::new();
    g.handle_keydown(KeyInput::Left);
    g.handle_keydown(KeyInput::Up);
    assert_eq!(g.move_dir, v(0, -1));
    assert_eq!(g.direction, Direction::Up);
}

#[test]
fn any_key_accepted_while_idle() {
    let mut g = Game::new();
    assert_eq!(g.direction, Direction::Idle);
    g.handle_keydown(KeyInput::Down);
    assert_eq!(g.move_dir, v(0, 1));
    assert_eq!(g.direction, Direction::Down);
}

#[test]
fn boundary_reset_restores_start() {
    let mut g = Game::new();
    g.handle_keydown(KeyInput::Left);
    for step in 1..=6u64 {
        assert!(g.update(step * 100));
    }
    // After five steps the head stood at x = 0; the sixth moved it to x = -1.
    assert_eq!(g.snake.body, vec![v(5, 5)]);
    assert_eq!(g.move_dir, v(0, 0));
    // The direction label is not cleared by the reset, so the old opposite
    // stays blocked even though the snake no longer moves.
    assert_eq!(g.direction, Direction::Left);
    g.handle_keydown(KeyInput::Right);
    assert_eq!(g.move_dir, v(0, 0));
}

#[test]
fn eating_grows_and_relocates_food() {
    let mut g = Game::new();
    g.food.position = v(6, 5);
    g.handle_keydown(KeyInput::Right);
    assert!(g.update(100));
    assert_eq!(g.snake.body, vec![v(6, 5), v(6, 5)]);
    assert!(g.food.position.x >= 0 && g.food.position.x < 18);
    assert!(g.food.position.y >= 0 && g.food.position.y < 18);
}

#[test]
fn first_step_scenario() {
    let mut g = Game::new();
    g.handle_keydown(KeyInput::Right);
    assert!(g.update(100));
    assert_eq!(g.snake.body, vec![v(6, 5)]);
    assert_eq!(g.food.position, v(10, 15));
    assert_eq!(g.move_dir, v(1, 0));
    assert_eq!(g.direction, Direction::Right);
}

#[test]
fn update_is_throttled() {
    let mut g = Game::new();
    g.handle_keydown(KeyInput::Right);
    assert!(!g.update(99));
    assert_eq!(g.snake.body, vec![v(5, 5)]);
    assert!(g.update(100));
    assert_eq!(g.snake.body, vec![v(6, 5)]);
    assert!(!g.update(199));
    assert_eq!(g.snake.body, vec![v(6, 5)]);
    assert!(g.update(200));
    assert_eq!(g.snake.body, vec![v(7, 5)]);
}

#[test]
fn idle_update_keeps_single_cell_in_place() {
    let mut g = Game::new();
    assert!(g.update(100));
    assert_eq!(g.snake.body, vec![v(5, 5)]);
    assert_eq!(g.move_dir, v(0, 0));
}

#[test]
fn food_pixel_position() {
    let f = Food::new(10, 15, gray());
    assert_eq!(f.get_position(), v(250, 375));
    assert_eq!(snake_game::CELL_SIZE, 25);
}

#[test]
fn respawned_food_stays_on_grid() {
    let mut g = Game::new();
    for _ in 0..100 {
        g.respawn_food();
        assert!(g.food.position.x >= 0 && g.food.position.x < 18);
        assert!(g.food.position.y >= 0 && g.food.position.y < 18);
    }
}

fn looped_game(food: Vector2) -> Game {
    Game {
        grid: Grid::new(18, 18),
        snake: test_snake(vec![v(5, 5), v(5, 6), v(6, 6), v(6, 5)]),
        food: Food { position: food, color: gray() },
        move_dir: v(0, 1),
        direction: Direction::Down,
        game_speed: 10,
        last_update: 0,
    }
}

#[test]
fn self_collision_resets() {
    let mut g = looped_game(v(10, 15));
    assert!(g.update(100));
    // The head moved onto the cell the first body segment shifted into.
    assert_eq!(g.snake.body, vec![v(5, 5)]);
    assert_eq!(g.move_dir, v(0, 0));
    assert_eq!(g.food.position, v(10, 15));
}

#[test]
fn self_collision_on_food_still_eats() {
    // Eating is judged by the head's position before the reset is applied,
    // so the freshly reset snake grows to two overlapping start cells.
    let mut g = looped_game(v(5, 6));
    assert!(g.update(100));
    assert_eq!(g.snake.body, vec![v(5, 5), v(5, 5)]);
    assert_eq!(g.move_dir, v(0, 0));
    assert!(g.food.position.x >= 0 && g.food.position.x < 18);
    assert!(g.food.position.y >= 0 && g.food.position.y < 18);
}

#[test]
fn new_game_defaults() {
    let g = Game::new();
    assert_eq!(g.grid.rows, 18);
    assert_eq!(g.grid.cols, 18);
    assert_eq!(g.snake.body, vec![v(5, 5)]);
    assert_eq!(g.food.position, v(10, 15));
    assert_eq!(g.move_dir, v(0, 0));
    assert_eq!(g.direction, Direction::Idle);
    assert_eq!(g.game_speed, 10);
    assert_eq!(g.last_update, 0);
    assert_eq!(g.snake.color, Rgb { r: 0, g: 121, b: 241 });
    assert_eq!(g.snake.grow_color, Rgb { r: 102, g: 191, b: 255 });
    assert_eq!(g.food.color, Rgb { r: 230, g: 41, b: 55 });
}
