//! The game state machine: input handling, the throttled simulation step,
//! the collision reset, and eating.

use vstd::prelude::*;
use crate::food::Food;
use crate::geometry::{Rgb, Vector2};
use crate::grid::Grid;
use crate::snake::{collides, shifted, Snake};
use crate::{CELL_SIZE, HEIGHT, WIDTH};

verus! {

/// The direction label of the last accepted input, used to forbid an
/// instantaneous reversal. `Idle` means no movement has been requested yet.
#[derive(Clone, Copy, Debug, PartialEq, Eq, Structural)]
pub enum Direction {
    Idle,
    Up,
    Down,
    Left,
    Right,
}

/// One directional key press, as delivered by the embedding program; any
/// other input is ignored before it reaches the game.
#[derive(Clone, Copy, Debug, PartialEq, Eq, Structural)]
pub enum KeyInput {
    Up,
    Down,
    Left,
    Right,
}

/// The movement vector a key requests.
pub open spec fn key_vector(key: KeyInput) -> Vector2 {
    match key {
        KeyInput::Up => Vector2 { x: 0, y: -1i32 },
        KeyInput::Down => Vector2 { x: 0, y: 1 },
        KeyInput::Left => Vector2 { x: -1i32, y: 0 },
        KeyInput::Right => Vector2 { x: 1, y: 0 },
    }
}

/// The direction label a key sets.
pub open spec fn key_direction(key: KeyInput) -> Direction {
    match key {
        KeyInput::Up => Direction::Up,
        KeyInput::Down => Direction::Down,
        KeyInput::Left => Direction::Left,
        KeyInput::Right => Direction::Right,
    }
}

/// The current direction that makes `key` a no-op: its exact opposite.
pub open spec fn opposite_of(key: KeyInput) -> Direction {
    match key {
        KeyInput::Up => Direction::Down,
        KeyInput::Down => Direction::Up,
        KeyInput::Left => Direction::Right,
        KeyInput::Right => Direction::Left,
    }
}

/// An axis-aligned movement vector of step length at most one.
pub open spec fn axis_step(d: Vector2) -> bool {
    (-1 <= d.x <= 1) && (-1 <= d.y <= 1) && (d.x == 0 || d.y == 0)
}

/// Where a fresh snake starts.
pub open spec fn start_position() -> Vector2 {
    Vector2 { x: 5, y: 5 }
}

/// The head color, a plain blue.
pub open spec fn snake_head_color() -> Rgb {
    Rgb { r: 0, g: 121, b: 241 }
}

/// The body color, a sky blue.
pub open spec fn snake_body_color() -> Rgb {
    Rgb { r: 102, g: 191, b: 255 }
}

/// The food color, a red.
pub open spec fn food_color() -> Rgb {
    Rgb { r: 230, g: 41, b: 55 }
}

/// The whole game: grid, snake and food, the current movement state, the
/// simulation speed, and the clock reading of the last simulation step.
pub struct Game {
    pub grid: Grid,
    pub snake: Snake,
    pub food: Food,
    pub move_dir: Vector2,
    pub direction: Direction,
    /// Simulation ticks per second.
    pub game_speed: u32,
    /// Clock reading, in milliseconds, at the last simulation step.
    pub last_update: u64,
}

impl Game {
    /// The invariant every step preserves: the grid is large enough to hold
    /// the start position and small enough that cell coordinates scale to
    /// pixels without overflow, the snake is non-empty and entirely on the
    /// grid, the food is on the grid, and the movement vector is one
    /// axis-aligned step or zero.
    pub open spec fn well_formed(self) -> bool {
        &&& 5 < self.grid.cols
        &&& 5 < self.grid.rows
        &&& self.grid.cols * CELL_SIZE <= i32::MAX
        &&& self.grid.rows * CELL_SIZE <= i32::MAX
        &&& self.snake.well_formed()
        &&& forall|i: int|
            0 <= i < self.snake.body@.len() ==> self.grid.contains(
                #[trigger] self.snake.body@[i],
            )
        &&& self.grid.contains(self.food.position)
        &&& axis_step(self.move_dir)
        &&& self.game_speed > 0
    }

    /// Whether a simulation step is due at clock reading `now_ms`: the time
    /// elapsed since the last step has reached one tick interval of
    /// 1/game_speed seconds.
    pub open spec fn tick_due(self, now_ms: u64) -> bool {
        (now_ms - self.last_update) * self.game_speed >= 1000
    }

    /// The snake body after the follow-the-leader move of one step.
    pub open spec fn moved_body(self) -> Seq<Vector2> {
        shifted(self.snake.body@, self.move_dir)
    }

    /// Whether one step's move puts the head outside the grid or onto the
    /// body, either of which resets the snake.
    pub open spec fn step_resets(self) -> bool {
        !self.grid.contains(self.moved_body()[0]) || collides(self.moved_body())
    }

    /// Whether one step's move puts the head exactly onto the food.
    pub open spec fn step_eats(self) -> bool {
        self.moved_body()[0] == self.food.position
    }

    /// The snake body one step leaves behind: the moved body, replaced by a
    /// fresh single cell at the start position when the move resets, then
    /// grown by a duplicate tail cell when the moved head sits on the food.
    /// Eating is judged by the head's position before any reset is applied,
    /// so a self-collision on the food cell still grows the fresh snake.
    pub open spec fn snake_after_step(self) -> Seq<Vector2> {
        let based = if self.step_resets() {
            seq![start_position()]
        } else {
            self.moved_body()
        };
        if self.step_eats() {
            based.push(based[based.len() - 1])
        } else {
            based
        }
    }

    /// A fresh game: an 18 x 18 grid, a single-cell snake at the start
    /// position, food at (10, 15), no movement yet, ten ticks per second.
    pub fn new() -> (g: Game)
        ensures
            g.well_formed(),
            g.grid.rows == WIDTH / CELL_SIZE,
            g.grid.cols == HEIGHT / CELL_SIZE,
            g.snake.body@ == seq![(start_position())],
            g.snake.color == snake_head_color(),
            g.snake.grow_color == snake_body_color(),
            g.food.position == (Vector2 { x: 10, y: 15 }),
            g.food.color == food_color(),
            g.move_dir == (Vector2 { x: 0, y: 0 }),
            g.direction == Direction::Idle,
            g.game_speed == 10,
            g.last_update == 0,
    {
        let grid = Grid::new(WIDTH / CELL_SIZE, HEIGHT / CELL_SIZE);
        let snake = Snake::new(
            5,
            5,
            Rgb { r: 0, g: 121, b: 241 },
            Rgb { r: 102, g: 191, b: 255 },
        );
        let food = Food::new(10, 15, Rgb { r: 230, g: 41, b: 55 });
        let g = Game {
            grid,
            snake,
            food,
            move_dir: Vector2 { x: 0, y: 0 },
            direction: Direction::Idle,
            game_speed: 10,
            last_update: 0,
        };
        proof {
            assert(g.snake.body@ =~= seq![start_position()]);
        }
        g
    }

    /// Maps a directional key to a movement vector and a direction label,
    /// unless the key is the exact opposite of the current direction, in
    /// which case nothing changes.
    pub fn handle_keydown(&mut self, key: KeyInput)
        ensures
            old(self).direction == opposite_of(key) ==> *final(self) == *old(self),
            old(self).direction != opposite_of(key) ==> final(self).move_dir == key_vector(key)
                && final(self).direction == key_direction(key),
            final(self).grid == old(self).grid,
            final(self).snake == old(self).snake,
            final(self).food == old(self).food,
            final(self).game_speed == old(self).game_speed,
            final(self).last_update == old(self).last_update,
            old(self).well_formed() ==> final(self).well_formed(),
    {
        match key {
            KeyInput::Up => {
                if self.direction != Direction::Down {
                    self.move_dir = Vector2 { x: 0, y: -1 };
                    self.direction = Direction::Up;
                }
            },
            KeyInput::Down => {
                if self.direction != Direction::Up {
                    self.move_dir = Vector2 { x: 0, y: 1 };
                    self.direction = Direction::Down;
                }
            },
            KeyInput::Left => {
                if self.direction != Direction::Right {
                    self.move_dir = Vector2 { x: -1, y: 0 };
                    self.direction = Direction::Left;
                }
            },
            KeyInput::Right => {
                if self.direction != Direction::Left {
                    self.move_dir = Vector2 { x: 1, y: 0 };
                    self.direction = Direction::Right;
                }
            },
        }
    }

    /// Replaces the snake with a fresh single-cell snake at the start
    /// position and stops movement. The direction label is left as it was.
    pub fn reset_snake(&mut self)
        ensures
            final(self).snake.body@ == seq![(start_position())],
            final(self).snake.color == snake_head_color(),
            final(self).snake.grow_color == snake_body_color(),
            final(self).move_dir == (Vector2 { x: 0, y: 0 }),
            final(self).direction == old(self).direction,
            final(self).grid == old(self).grid,
            final(self).food == old(self).food,
            final(self).game_speed == old(self).game_speed,
            final(self).last_update == old(self).last_update,
    {
        self.snake = Snake::new(
            5,
            5,
            Rgb { r: 0, g: 121, b: 241 },
            Rgb { r: 102, g: 191, b: 255 },
        );
        self.move_dir = Vector2 { x: 0, y: 0 };
        proof {
            assert(self.snake.body@ =~= seq![start_position()]);
        }
    }

    /// Moves the food to a uniformly random cell of the grid, each axis
    /// drawn independently. The new cell may land on the snake's body; that
    /// overlap is accepted behavior, not excluded.
    pub fn respawn_food(&mut self)
        requires
            old(self).grid.cols > 0,
            old(self).grid.rows > 0,
        ensures
            final(self).grid.contains(final(self).food.position),
            final(self).food.color == old(self).food.color,
            final(self).snake == old(self).snake,
            final(self).grid == old(self).grid,
            final(self).move_dir == old(self).move_dir,
            final(self).direction == old(self).direction,
            final(self).game_speed == old(self).game_speed,
            final(self).last_update == old(self).last_update,
    {
        let max_x = self.grid.cols;
        let max_y = self.grid.rows;
        let fx = crate::rng::random_below(max_x);
        let fy = crate::rng::random_below(max_y);
        self.food.position.x = fx;
        self.food.position.y = fy;
    }

    /// The head reached the food: grow the snake, then relocate the food.
    pub fn eat_food(&mut self)
        requires
            old(self).snake.well_formed(),
            old(self).grid.cols > 0,
            old(self).grid.rows > 0,
        ensures
            final(self).snake.body@ == old(self).snake.body@.push(
                old(self).snake.body@[old(self).snake.body@.len() - 1],
            ),
            final(self).snake.color == old(self).snake.color,
            final(self).snake.grow_color == old(self).snake.grow_color,
            final(self).grid.contains(final(self).food.position),
            final(self).food.color == old(self).food.color,
            final(self).grid == old(self).grid,
            final(self).move_dir == old(self).move_dir,
            final(self).direction == old(self).direction,
            final(self).game_speed == old(self).game_speed,
            final(self).last_update == old(self).last_update,
    {
        self.snake.grow();
        self.respawn_food();
    }

    /// Advances the simulation by one tick if one is due at clock reading
    /// `now_ms` (milliseconds on a monotonic clock): moves the snake along
    /// `move_dir`, resets it when the head leaves the grid or bites the
    /// body, and grows it and relocates the food when the moved head sits on
    /// the food. Returns whether a step was taken; otherwise nothing
    /// changes.
    pub fn update(&mut self, now_ms: u64) -> (stepped: bool)
        requires
            old(self).well_formed(),
            old(self).last_update <= now_ms,
        ensures
            final(self).well_formed(),
            stepped == old(self).tick_due(now_ms),
            !stepped ==> *final(self) == *old(self),
            stepped ==> final(self).snake.body@ == old(self).snake_after_step(),
            stepped ==> final(self).snake.color == (if old(self).step_resets() {
                snake_head_color()
            } else {
                old(self).snake.color
            }),
            stepped ==> final(self).snake.grow_color == (if old(self).step_resets() {
                snake_body_color()
            } else {
                old(self).snake.grow_color
            }),
            stepped ==> final(self).move_dir == (if old(self).step_resets() {
                Vector2 { x: 0, y: 0 }
            } else {
                old(self).move_dir
            }),
            stepped ==> final(self).direction == old(self).direction,
            stepped && old(self).step_eats() ==> final(self).grid.contains(
                final(self).food.position,
            ) && final(self).food.color == old(self).food.color,
            stepped && !old(self).step_eats() ==> final(self).food == old(self).food,
            stepped ==> final(self).grid == old(self).grid,
            stepped ==> final(self).game_speed == old(self).game_speed,
            stepped ==> final(self).last_update == now_ms,
    {
        let elapsed: u64 = now_ms - self.last_update;
        proof {
            assert((elapsed as int) * (self.game_speed as int) <= 0xffff_ffff_ffff_ffff
                * 0xffff_ffff) by (nonlinear_arith)
                requires
                    elapsed <= 0xffff_ffff_ffff_ffff,
                    self.game_speed <= 0xffff_ffff,
            ;
        }
        if (elapsed as u128) * (self.game_speed as u128) < 1000 {
            return false;
        }

        let move_dir = self.move_dir;
        self.snake.update(move_dir);

        let snake_head = self.snake.body[0];

        if snake_head.x >= self.grid.cols || snake_head.x < 0 || snake_head.y < 0
            || snake_head.y >= self.grid.rows || self.snake.check_collision() {
            self.reset_snake();
        }

        let food_position = self.food.get_position();
        if snake_head.x * CELL_SIZE == food_position.x && snake_head.y * CELL_SIZE
            == food_position.y {
            self.eat_food();
        }

        self.last_update = now_ms;
        true
    }
}

/// Boundary reset: when the follow-the-leader move puts the head outside
/// the grid, the step leaves exactly the single-cell start snake. Leaving
/// the grid can never coincide with eating, since the food is on the grid.
pub proof fn lemma_boundary_reset(g: Game)
    requires
        g.well_formed(),
        !g.grid.contains(g.moved_body()[0]),
    ensures
        g.step_resets(),
        !g.step_eats(),
        g.snake_after_step() == seq![(start_position())],
{
    assert(g.moved_body()[0] != g.food.position);
}

/// Eating: when the follow-the-leader move puts the head exactly onto the
/// food without resetting the snake, the step's body is one cell longer.
/// (A move that both bites the body and lands on the food instead leaves a
/// two-cell snake at the start position.)
pub proof fn lemma_eating_grows(g: Game)
    requires
        g.well_formed(),
        g.step_eats(),
        !g.step_resets(),
    ensures
        g.snake_after_step().len() == g.snake.body@.len() + 1,
{
}

} // verus!
