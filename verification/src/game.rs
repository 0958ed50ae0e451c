//! The game state and the tick that advances it.

use vstd::prelude::*;
use crate::board::{BoardError, GameBoard};
use crate::food::{get_new_apple_position, has_free_cell, is_free};
use crate::input::{request, request_spec};
use crate::laws::{
    lemma_free_cell_iff_room, lemma_initial_wf, lemma_tick_keeps_distinct, lemma_tick_keeps_wf,
};
use crate::position::{Direction, Position};
use crate::snake::{Snake, SnakeView};

verus! {

/// How a tick ended.
#[derive(Clone, Copy, Debug, Hash, PartialEq, Eq, Structural)]
pub enum Action {
    /// The snake moved one cell.
    Move,
    /// The snake ate the food and grew by one segment.
    Grow,
    /// The head met a wall or the body.
    GameOver,
}

/// Everything that changes while a game runs.
///
/// `pending` holds the heading requested since the last tick, if any; the
/// next tick decides whether it is taken. `action` is the outcome of the last
/// tick that was carried out. Once `gameover` is set the state is final.
#[derive(Clone, Debug, PartialEq, Eq)]
pub struct GameState {
    pub snake: Snake,
    pub food: Position,
    pub direction: Direction,
    pub pending: Option<Direction>,
    pub score: u32,
    pub action: Action,
    pub gameover: bool,
}

/// What a game state is to a contract.
pub struct GameView {
    pub snake: SnakeView,
    pub food: Position,
    pub direction: Direction,
    pub pending: Option<Direction>,
    pub score: nat,
    pub action: Action,
    pub gameover: bool,
}

impl View for GameState {
    type V = GameView;

    open spec fn view(&self) -> GameView {
        GameView {
            snake: self.snake@,
            food: self.food,
            direction: self.direction,
            pending: self.pending,
            score: self.score as nat,
            action: self.action,
            gameover: self.gameover,
        }
    }
}

impl GameView {
    /// The state at the start of a game: a snake that is all head, heading
    /// right, nothing scored.
    pub open spec fn initial(head: Position, food: Position) -> GameView {
        GameView {
            snake: SnakeView { head, body: Seq::empty() },
            food,
            direction: Direction::Right,
            pending: None,
            score: 0,
            action: Action::Move,
            gameover: false,
        }
    }

    /// The state with `requested` as the pending request, whatever was
    /// pending before.
    pub open spec fn requested(self, requested: Direction) -> GameView {
        GameView { pending: Some(requested), ..self }
    }

    /// The heading of the next move: the pending request unless it is a
    /// reversal, or the current heading where nothing is pending.
    pub open spec fn heading(self) -> Direction {
        match self.pending {
            Some(requested) => request_spec(self.direction, requested),
            None => self.direction,
        }
    }

    /// Whether the next move takes the head off the board.
    pub open spec fn hits_wall(self, board: GameBoard) -> bool {
        !board.holds(
            self.snake.head.step_x(self.heading()),
            self.snake.head.step_y(self.heading()),
        )
    }

    /// Where the next move takes the head.
    pub open spec fn next_head(self) -> Position {
        self.snake.head.moved(self.heading())
    }

    /// Whether the next move takes the head to the food.
    pub open spec fn eats(self) -> bool {
        self.next_head() == self.food
    }

    /// Whether the next move takes the head into the body.
    pub open spec fn hits_self(self) -> bool {
        self.snake.blocks(self.next_head(), self.eats())
    }

    /// How the next tick of a running game ends. The wall is looked at
    /// first, then the body, then the food.
    pub open spec fn outcome(self, board: GameBoard) -> Action {
        if self.hits_wall(board) || self.hits_self() {
            Action::GameOver
        } else if self.eats() {
            Action::Grow
        } else {
            Action::Move
        }
    }

    /// The state after one tick, where `placed` is the cell chosen for the
    /// food should the snake eat.
    ///
    /// A game that is over stays as it is. Otherwise the pending request is
    /// decided on and used up. On a collision the game ends with snake, food
    /// and score untouched. On the food the snake grows and scores; the food
    /// moves to `placed` if the grown snake leaves a cell free, else it stays
    /// and the game ends, the board being full. On any other cell the snake
    /// moves.
    pub open spec fn tick(self, board: GameBoard, placed: Position) -> GameView {
        if self.gameover {
            self
        } else {
            let turned = GameView { direction: self.heading(), pending: None, ..self };
            match self.outcome(board) {
                Action::GameOver => GameView { action: Action::GameOver, gameover: true, ..turned },
                Action::Grow => {
                    let snake = self.snake.advanced(self.next_head(), true);
                    let room = has_free_cell(board, snake);
                    GameView {
                        snake,
                        food: if room {
                            placed
                        } else {
                            self.food
                        },
                        score: self.score + 1,
                        action: Action::Grow,
                        gameover: !room,
                        ..turned
                    }
                },
                Action::Move => GameView {
                    snake: self.snake.advanced(self.next_head(), false),
                    action: Action::Move,
                    ..turned
                },
            }
        }
    }

    /// Whether the next tick makes the snake grow.
    pub open spec fn grows(self, board: GameBoard) -> bool {
        !self.gameover && self.outcome(board) == Action::Grow
    }

    /// The state after one tick for each cell of `placed`, in turn.
    pub open spec fn ticks(self, board: GameBoard, placed: Seq<Position>) -> GameView
        decreases placed.len(),
    {
        if placed.len() == 0 {
            self
        } else {
            self.ticks(board, placed.drop_last()).tick(board, placed.last())
        }
    }

    /// What every tick keeps: the snake lies on the board and covers no
    /// cell twice, and while the game runs the food lies on a cell of the
    /// board that the snake leaves free.
    pub open spec fn wf(self, board: GameBoard) -> bool {
        &&& self.snake.distinct()
        &&& self.snake.within(board)
        &&& !self.gameover ==> is_free(board, self.snake, self.food)
    }
}

impl GameState {
    /// The state at the start of a game: the snake is all head and heads
    /// right, nothing is scored or pending, and the last action reads as a
    /// move.
    pub fn new(head: Position, food: Position) -> (state: GameState)
        ensures
            state@ == GameView::initial(head, food),
    {
        GameState {
            snake: Snake::new(head),
            food,
            direction: Direction::Right,
            pending: None,
            score: 0,
            action: Action::Move,
            gameover: false,
        }
    }

    /// Records `requested` as the heading asked for since the last tick.
    /// A later request replaces an earlier one; the next tick decides
    /// whether it is taken.
    pub fn request_direction(&mut self, requested: Direction)
        ensures
            final(self)@ == old(self)@.requested(requested),
    {
        self.pending = Some(requested);
    }
}

/// A board of the given dimensions and the state of a new game on it.
/// Dimensions that are not positive are refused; head and food are taken as
/// they come, and the game is well formed exactly when they are two
/// different cells of the board.
pub fn new_game(
    board_width: i32,
    board_height: i32,
    initial_head: Position,
    initial_food: Position,
) -> (r: Result<(GameBoard, GameState), BoardError>)
    ensures
        r.is_ok() <==> board_width > 0 && board_height > 0,
        r matches Ok((board, state)) ==> {
            &&& board.wf()
            &&& board.spec_width() == board_width
            &&& board.spec_height() == board_height
            &&& state@ == GameView::initial(initial_head, initial_food)
            &&& state@.wf(board) <==> board.contains_spec(initial_head) && board.contains_spec(
                initial_food,
            ) && initial_head != initial_food
        },
        r matches Err(e) ==> (e == BoardError::NonPositiveWidth <==> board_width <= 0),
{
    match GameBoard::new(board_width, board_height) {
        Ok(board) => {
            let state = GameState::new(initial_head, initial_food);
            proof {
                lemma_initial_wf(initial_head, initial_food, board);
            }
            Ok((board, state))
        },
        Err(e) => Err(e),
    }
}

/// Takes in the heading requests that came since the last tick. Only the
/// latest is kept, as the pending request; with no request the state stays
/// as it is.
pub fn check_input(state: &mut GameState, events: &Vec<Direction>)
    ensures
        events@.len() == 0 ==> final(state)@ == old(state)@,
        events@.len() > 0 ==> final(state)@ == old(state)@.requested(events@.last()),
{
    let n: usize = events.len();
    if n > 0 {
        state.request_direction(events[n - 1]);
    }
}

/// Whether the last tick made the snake grow.
pub fn snake_growing(state: &GameState) -> (r: bool)
    ensures
        r == (state.action == Action::Grow),
{
    state.action == Action::Grow
}

/// The cell of the segment that the snake gained when it last grew. A
/// growing snake keeps its tail where a moving one would give it up, so the
/// segment gained is the last of the body. For a snake without a body the
/// origin is returned.
pub fn insert_new_segment(state: &GameState) -> (pos: Position)
    ensures
        state@.snake.body.len() > 0 ==> pos == state@.snake.body.last(),
        state@.snake.body.len() == 0 ==> pos == (Position { x: 0, y: 0 }),
{
    let n: usize = state.snake.body.len();
    if n > 0 {
        state.snake.body[n - 1]
    } else {
        Position::new(0, 0)
    }
}

/// Advances the game by one tick.
///
/// A game that is over is left untouched. Otherwise the pending request is
/// decided on and used up, and the head is sent one cell along the heading.
/// If that cell is off the board or on the body, the game ends and snake,
/// food and score stay. If it holds the food, the snake grows by one
/// segment, one point is scored and the food is placed anew on a cell that
/// the grown snake leaves free; a snake that fills the board gets no new
/// food and the game ends. On any other cell the snake moves and keeps its
/// length.
///
/// The score is a `u32`: a tick that grows the snake needs room for one
/// more point.
pub fn step(state: &mut GameState, board: &GameBoard)
    requires
        old(state)@.grows(*board) ==> old(state).score < u32::MAX,
    ensures
        final(state)@ == old(state)@.tick(*board, final(state).food),
        old(state)@.grows(*board) && !final(state).gameover ==> is_free(
            *board,
            final(state)@.snake,
            final(state).food,
        ),
        old(state).gameover ==> *final(state) == *old(state),
        !old(state).gameover ==> {
            &&& final(state).action == old(state)@.outcome(*board)
            &&& final(state).direction == old(state)@.heading()
            &&& final(state).pending.is_none()
        },
        !old(state).gameover && old(state)@.hits_wall(*board) ==> {
            &&& final(state).gameover
            &&& final(state).action == Action::GameOver
            &&& final(state)@.snake == old(state)@.snake
            &&& final(state).food == old(state).food
            &&& final(state).score == old(state).score
        },
        !old(state).gameover && final(state).action == Action::GameOver ==> {
            &&& final(state).gameover
            &&& final(state)@.snake == old(state)@.snake
            &&& final(state).food == old(state).food
            &&& final(state).score == old(state).score
        },
        !old(state).gameover && final(state).action == Action::Move ==> {
            &&& final(state)@.snake.body.len() == old(state)@.snake.body.len()
            &&& final(state).food == old(state).food
            &&& final(state).score == old(state).score
            &&& !final(state).gameover
        },
        !old(state).gameover && final(state).action == Action::Grow ==> {
            &&& final(state)@.snake.body.len() == old(state)@.snake.body.len() + 1
            &&& final(state).score == old(state).score + 1
            &&& final(state).gameover == !has_free_cell(*board, final(state)@.snake)
        },
        old(state)@.snake.distinct() ==> final(state)@.snake.distinct(),
        old(state)@.wf(*board) ==> final(state)@.wf(*board),
        old(state)@.wf(*board) && !old(state).gameover && final(state).action == Action::Grow
            ==> final(state).gameover == (final(state)@.snake.cells().len()
            == board.spec_area()),
{
    if state.gameover {
        return ;
    }
    let heading = match state.pending {
        Some(requested) => request(state.direction, requested),
        None => state.direction,
    };
    state.direction = heading;
    state.pending = None;
    let target = match state.snake.head.checked_move_towards(heading) {
        Some(cell) => if board.contains(cell) {
            Some(cell)
        } else {
            None
        },
        None => None,
    };
    match target {
        None => {
            state.action = Action::GameOver;
            state.gameover = true;
        },
        Some(new_head) => {
            let grow = new_head == state.food;
            if state.snake.blocks(new_head, grow) {
                state.action = Action::GameOver;
                state.gameover = true;
            } else {
                state.snake.advance(new_head, grow);
                if grow {
                    state.action = Action::Grow;
                    state.score += 1;
                    match get_new_apple_position(board, &state.snake) {
                        Some(cell) => {
                            state.food = cell;
                        },
                        None => {
                            state.gameover = true;
                        },
                    }
                } else {
                    state.action = Action::Move;
                }
            }
        },
    }
    proof {
        assert(state@ == old(state)@.tick(*board, state.food));
        if old(state)@.snake.distinct() {
            lemma_tick_keeps_distinct(old(state)@, *board, state.food);
        }
        if old(state)@.wf(*board) {
            use_type_invariant(board);
            lemma_tick_keeps_wf(old(state)@, *board, state.food);
            lemma_free_cell_iff_room(*board, state@.snake);
        }
    }
}

} // verus!
