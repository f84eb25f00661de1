//! The game session: the snake, the food, the score, and the top-level state
//! machine Playing / GameOver, advanced one simulation tick at a time.
//!
//! Each tick moves the snake one cell, then checks the boundary and the
//! snake's own body for a collision, and finally — only when no collision
//! ended the session — handles food: eating grows the snake, scores a fixed
//! reward, and places new food before the frame is drawn. Input is handled
//! once per render frame, independently of tick boundaries.

use vstd::prelude::*;

use crate::food::{is_food_cell, lemma_food_cell_in_bounds, place_food};
use crate::geometry::{apply_direction, hits_boundary, in_bounds, in_bounds_spec, Direction, Pos};
use crate::snake::{grown_length, is_initial_snake, Snake, MAX_SNAKE_LENGTH, START_X, START_Y};

verus! {

/// Points awarded for each piece of food eaten.
pub const SCORE_PER_FOOD: u64 = 10;

/// The top-level session state. A finished session carries the final score
/// for display.
#[derive(Clone, Copy, PartialEq, Eq, Structural, Debug)]
pub enum GameState {
    Playing,
    GameOver(u64),
}

/// One logical input event per render frame, already decoded from whatever
/// key was freshly pressed: a turn request, a restart request, a quit
/// request, or nothing.
#[derive(Clone, Copy, PartialEq, Eq, Structural, Debug)]
pub enum InputEvent {
    Turn(Direction),
    Restart,
    Quit,
    Idle,
}

/// What the surrounding frame loop should do after an input event.
#[derive(Clone, Copy, PartialEq, Eq, Structural, Debug)]
pub enum FrameCommand {
    KeepRunning,
    Exit,
}

/// What one simulation tick did. `Ate` is the extension point for a
/// food-eaten effect such as a sound.
#[derive(Clone, Copy, PartialEq, Eq, Structural, Debug)]
pub enum TickOutcome {
    Moved,
    Ate,
    Collided,
}

/// The position the head moves to on the next tick.
pub open spec fn moved_head(s: Snake) -> Pos {
    Pos {
        x: (s.head_spec().x as int + s.dir.spec_dx()) as i32,
        y: (s.head_spec().y as int + s.dir.spec_dy()) as i32,
    }
}

/// Whether the next tick's head position lands on the snake's own body: the
/// body cell at index `j` moves to the position the cell at `j` holds now for
/// `j` up to `length - 1`, so the tick collides exactly when the moved head
/// equals one of those.
pub open spec fn tick_self_hit(s: Snake) -> bool {
    exists|j: int| 0 <= j < s.length - 1 && s.cells@[j] == moved_head(s)
}

/// Whether the next tick ends the session: the moved head either leaves the
/// playfield or lands on the snake's own body.
pub open spec fn tick_collides(s: Snake) -> bool {
    hits_boundary(moved_head(s)) || tick_self_hit(s)
}

/// One game session.
pub struct Game {
    /// The player-controlled segment chain.
    pub snake: Snake,
    /// Where the food sits; never on a live snake segment.
    pub food: Pos,
    /// Points scored so far.
    pub score: u64,
    /// Whether the session is still being played.
    pub state: GameState,
}

impl Game {
    /// Session invariant: the snake is well formed, the food sits on a
    /// sampler cell that no live segment occupies, the head is inside the
    /// playfield while the session is being played, and a finished session
    /// carries the score it ended with.
    pub open spec fn wf(self) -> bool {
        &&& self.snake.wf()
        &&& is_food_cell(self.food)
        &&& !self.snake.occupies(self.food)
        &&& (self.state is Playing ==> in_bounds_spec(self.snake.head_spec()))
        &&& (self.state matches GameState::GameOver(s) ==> s == self.score)
    }

    /// A fresh session: the initial snake at the screen center moving right,
    /// score zero, freshly placed food, ready to play.
    pub fn new() -> (g: Game)
        ensures
            g.wf(),
            is_initial_snake(g.snake),
            is_food_cell(g.food),
            !g.snake.occupies(g.food),
            g.score == 0,
            g.state == GameState::Playing,
    {
        let snake = Snake::initial();
        let food = place_food(&snake);
        let g = Game { snake, food, score: 0, state: GameState::Playing };
        proof {
            assert(g.snake.cells@[0].x as int == START_X as int - 0 * 20);
            assert(g.snake.head_spec().x == START_X && g.snake.head_spec().y == START_Y);
        }
        g
    }

    /// Handle the frame's input event.
    ///
    /// While playing, a turn request steers the snake (subject to the axis
    /// rule) and a quit request ends the session, shown as game over, at
    /// once; restart requests mean nothing. Once the session is over, a
    /// restart request starts a fresh session in place and a quit request
    /// tells the frame loop to exit; turn requests mean nothing.
    pub fn handle_input(&mut self, ev: InputEvent) -> (cmd: FrameCommand)
        requires
            old(self).wf(),
        ensures
            final(self).wf(),
            cmd == FrameCommand::Exit <==> (old(self).state is GameOver && ev
                == InputEvent::Quit),
            old(self).state is Playing ==> (ev matches InputEvent::Turn(d) ==> {
                &&& final(self).snake.dir == apply_direction(old(self).snake.dir, d)
                &&& final(self).snake.cells == old(self).snake.cells
                &&& final(self).snake.length == old(self).snake.length
                &&& final(self).food == old(self).food
                &&& final(self).score == old(self).score
                &&& final(self).state == old(self).state
            }),
            old(self).state is Playing && ev == InputEvent::Quit ==> {
                &&& final(self).state == GameState::GameOver(old(self).score)
                &&& final(self).snake == old(self).snake
                &&& final(self).food == old(self).food
                &&& final(self).score == old(self).score
            },
            old(self).state is Playing && (ev == InputEvent::Restart || ev == InputEvent::Idle)
                ==> *final(self) == *old(self),
            old(self).state is GameOver && ev == InputEvent::Restart ==> {
                &&& is_initial_snake(final(self).snake)
                &&& is_food_cell(final(self).food)
                &&& !final(self).snake.occupies(final(self).food)
                &&& final(self).score == 0
                &&& final(self).state == GameState::Playing
            },
            old(self).state is GameOver && ev != InputEvent::Restart ==> *final(self) == *old(self),
    {
        match self.state {
            GameState::Playing => {
                match ev {
                    InputEvent::Turn(d) => {
                        self.snake.set_direction(d);
                        FrameCommand::KeepRunning
                    },
                    InputEvent::Quit => {
                        self.state = GameState::GameOver(self.score);
                        FrameCommand::KeepRunning
                    },
                    _ => FrameCommand::KeepRunning,
                }
            },
            GameState::GameOver(_) => {
                match ev {
                    InputEvent::Restart => {
                        *self = Game::new();
                        FrameCommand::KeepRunning
                    },
                    InputEvent::Quit => FrameCommand::Exit,
                    _ => FrameCommand::KeepRunning,
                }
            },
        }
    }

    /// Run one simulation tick of a session that is being played.
    ///
    /// The snake moves one cell: every non-head segment takes its
    /// predecessor's position from immediately before the tick, and the head
    /// moves one cell in the current direction. A boundary or self collision
    /// ends the session, preserving the score for display. Otherwise, when
    /// the head lands exactly on the food, the snake grows by one segment
    /// (silently capped), the score rises by the fixed reward, and new food
    /// is placed off the snake before the frame is drawn.
    pub fn tick(&mut self) -> (outcome: TickOutcome)
        requires
            old(self).wf(),
            old(self).state is Playing,
            !tick_collides(old(self).snake) && moved_head(old(self).snake) == old(self).food
                ==> old(self).score + SCORE_PER_FOOD <= u64::MAX,
        ensures
            final(self).wf(),
            final(self).snake.dir == old(self).snake.dir,
            final(self).snake.head_spec() == moved_head(old(self).snake),
            forall|i: int|
                1 <= i < old(self).snake.length ==> final(self).snake.cells@[i] == old(
                    self,
                ).snake.cells@[i - 1],
            forall|i: int|
                old(self).snake.length <= i < MAX_SNAKE_LENGTH ==> final(self).snake.cells@[i]
                    == old(self).snake.cells@[i],
            (outcome == TickOutcome::Collided) <==> tick_collides(old(self).snake),
            (outcome == TickOutcome::Ate) <==> (!tick_collides(old(self).snake) && moved_head(
                old(self).snake,
            ) == old(self).food),
            outcome == TickOutcome::Collided ==> {
                &&& final(self).state == GameState::GameOver(old(self).score)
                &&& final(self).score == old(self).score
                &&& final(self).food == old(self).food
                &&& final(self).snake.length == old(self).snake.length
            },
            outcome == TickOutcome::Ate ==> {
                &&& final(self).state == GameState::Playing
                &&& final(self).score == old(self).score + SCORE_PER_FOOD
                &&& final(self).snake.length as int == grown_length(
                    old(self).snake.length as int,
                )
                &&& is_food_cell(final(self).food)
                &&& !final(self).snake.occupies(final(self).food)
            },
            outcome == TickOutcome::Moved ==> {
                &&& final(self).state == GameState::Playing
                &&& final(self).score == old(self).score
                &&& final(self).food == old(self).food
                &&& final(self).snake.length == old(self).snake.length
            },
    {
        self.snake.advance();
        let head = self.snake.head();
        proof {
            assert(head == moved_head(old(self).snake));
        }
        let mut over = !in_bounds(head);
        if !over && self.snake.self_collision() {
            over = true;
        }
        proof {
            assert(self.snake.self_hit() <==> tick_self_hit(old(self).snake)) by {
                if self.snake.self_hit() {
                    let i = choose|i: int|
                        1 <= i < self.snake.length && #[trigger] self.snake.cells@[i]
                            == self.snake.cells@[0];
                    assert(old(self).snake.cells@[i - 1] == moved_head(old(self).snake));
                }
                if tick_self_hit(old(self).snake) {
                    let j = choose|j: int|
                        0 <= j < old(self).snake.length - 1 && old(self).snake.cells@[j]
                            == moved_head(old(self).snake);
                    assert(self.snake.cells@[j + 1] == self.snake.cells@[0]);
                }
            }
        }
        if over {
            proof {
                lemma_food_cell_in_bounds(self.food);
                assert(!self.snake.occupies(self.food)) by {
                    if self.snake.occupies(self.food) {
                        let i = choose|i: int|
                            0 <= i < self.snake.length && #[trigger] self.snake.cells@[i]
                                == self.food;
                        if i > 0 {
                            assert(old(self).snake.cells@[i - 1] == self.food);
                        } else {
                            if tick_self_hit(old(self).snake) {
                                let j = choose|j: int|
                                    0 <= j < old(self).snake.length - 1 && old(
                                        self,
                                    ).snake.cells@[j] == moved_head(old(self).snake);
                                assert(old(self).snake.cells@[j] == self.food);
                            }
                        }
                    }
                }
            }
            self.state = GameState::GameOver(self.score);
            TickOutcome::Collided
        } else if head.x == self.food.x && head.y == self.food.y {
            self.snake.grow();
            self.score = self.score + SCORE_PER_FOOD;
            self.food = place_food(&self.snake);
            TickOutcome::Ate
        } else {
            proof {
                assert(!self.snake.occupies(self.food)) by {
                    if self.snake.occupies(self.food) {
                        let i = choose|i: int|
                            0 <= i < self.snake.length && #[trigger] self.snake.cells@[i]
                                == self.food;
                        if i > 0 {
                            assert(old(self).snake.cells@[i - 1] == self.food);
                        }
                    }
                }
            }
            TickOutcome::Moved
        }
    }
}

} // verus!
