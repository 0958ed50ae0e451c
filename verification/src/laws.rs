//! What holds of every game, proved of the tick as the contracts state it.

use vstd::prelude::*;
use crate::board::GameBoard;
use crate::food::{has_free_cell, is_free};
use crate::game::{Action, GameView};
use crate::input::request_spec;
use crate::position::{Direction, Position};
use crate::snake::SnakeView;

verus! {

/// A step along any heading leads to another cell.
pub proof fn lemma_step_leaves_cell(pos: Position, dir: Direction)
    requires
        pos.can_move(dir),
    ensures
        pos.moved(dir) != pos,
        pos.moved(dir).x == pos.step_x(dir),
        pos.moved(dir).y == pos.step_y(dir),
{
}

/// A request for the reverse of the current heading is refused: `request`
/// returns the current heading, and a tick that finds the request pending
/// leaves the heading as it was.
pub proof fn lemma_reversal_rejected(state: GameView, board: GameBoard, placed: Position)
    ensures
        request_spec(state.direction, state.direction.opposite_spec()) == state.direction,
        state.requested(state.direction.opposite_spec()).tick(board, placed).direction
            == state.direction,
{
}

/// Only the last request before a tick counts: the tick after several
/// requests is the tick after the last of them alone.
pub proof fn lemma_last_request_counts(
    state: GameView,
    earlier: Direction,
    last: Direction,
    board: GameBoard,
    placed: Position,
)
    ensures
        state.requested(earlier).requested(last) == state.requested(last),
        state.requested(earlier).requested(last).tick(board, placed) == state.requested(
            last,
        ).tick(board, placed),
{
}

/// A tick of a running game that ends as a move keeps the length of the
/// body; one that ends as growth adds exactly one segment; one that ends
/// the game keeps the body as it is.
pub proof fn lemma_tick_length(state: GameView, board: GameBoard, placed: Position)
    requires
        !state.gameover,
    ensures
        state.tick(board, placed).action == state.outcome(board),
        state.tick(board, placed).action == Action::Move ==> state.tick(
            board,
            placed,
        ).snake.body.len() == state.snake.body.len(),
        state.tick(board, placed).action == Action::Grow ==> state.tick(
            board,
            placed,
        ).snake.body.len() == state.snake.body.len() + 1,
        state.tick(board, placed).action == Action::GameOver ==> state.tick(
            board,
            placed,
        ).snake.body == state.snake.body,
{
}

/// A move that would take the head off the board ends the game and leaves
/// snake, food and score as they were.
pub proof fn lemma_wall_ends_game(state: GameView, board: GameBoard, placed: Position)
    requires
        !state.gameover,
        state.hits_wall(board),
    ensures
        state.tick(board, placed).gameover,
        state.tick(board, placed).action == Action::GameOver,
        state.tick(board, placed).snake == state.snake,
        state.tick(board, placed).food == state.food,
        state.tick(board, placed).score == state.score,
{
}

/// A snake whose cells are pairwise distinct has pairwise distinct cells
/// after a tick.
pub proof fn lemma_tick_keeps_distinct(state: GameView, board: GameBoard, placed: Position)
    requires
        state.snake.distinct(),
    ensures
        state.tick(board, placed).snake.distinct(),
{
    let next = state.tick(board, placed);
    if !state.gameover && state.outcome(board) != Action::GameOver {
        let grow = state.eats();
        let head = state.next_head();
        let old_cells = state.snake.cells();
        let new_cells = next.snake.cells();
        lemma_step_leaves_cell(state.snake.head, state.heading());
        assert(next.snake == state.snake.advanced(head, grow));
        assert(!state.snake.blocks(head, grow));
        assert forall|i: int, j: int| 0 <= i < j < new_cells.len() implies new_cells[i]
            != new_cells[j] by {
            assert(new_cells[j] == old_cells[j - 1]);
            if i == 0 {
                if j >= 2 {
                    assert(state.snake.obstacles(grow)[j - 2] == old_cells[j - 1]);
                }
            } else {
                assert(new_cells[i] == old_cells[i - 1]);
            }
        }
    }
}

/// A state that is well formed on the board is well formed after a tick,
/// when the cell offered for the food is one that the grown snake leaves
/// free, if it leaves any.
pub proof fn lemma_tick_keeps_wf(state: GameView, board: GameBoard, placed: Position)
    requires
        state.wf(board),
        state.grows(board) && has_free_cell(
            board,
            state.snake.advanced(state.next_head(), true),
        ) ==> is_free(board, state.snake.advanced(state.next_head(), true), placed),
    ensures
        state.tick(board, placed).wf(board),
{
    let next = state.tick(board, placed);
    lemma_tick_keeps_distinct(state, board, placed);
    if !state.gameover && state.outcome(board) != Action::GameOver {
        let grow = state.eats();
        let head = state.next_head();
        let old_cells = state.snake.cells();
        let new_cells = next.snake.cells();
        lemma_step_leaves_cell(state.snake.head, state.heading());
        assert(next.snake == state.snake.advanced(head, grow));
        assert forall|i: int| 0 <= i < new_cells.len() implies board.contains_spec(
            #[trigger] new_cells[i],
        ) by {
            if i > 0 {
                assert(new_cells[i] == old_cells[i - 1]);
            }
        }
        if !grow {
            assert(!next.snake.occupies(state.food)) by {
                if next.snake.occupies(state.food) {
                    let i = choose|i: int| 0 <= i < new_cells.len() && new_cells[i] == state.food;
                    assert(new_cells[i] == old_cells[i - 1]);
                    assert(state.snake.occupies(state.food));
                }
            }
        }
    }
}

/// A game that is over is final: no number of ticks changes anything of it.
pub proof fn lemma_game_over_is_final(state: GameView, board: GameBoard, placed: Seq<Position>)
    requires
        state.gameover,
    ensures
        state.ticks(board, placed) == state,
    decreases placed.len(),
{
    if placed.len() > 0 {
        lemma_game_over_is_final(state, board, placed.drop_last());
    }
}

/// The cells of the snake stay pairwise distinct through any number of
/// ticks.
pub proof fn lemma_ticks_keep_distinct(state: GameView, board: GameBoard, placed: Seq<Position>)
    requires
        state.snake.distinct(),
    ensures
        state.ticks(board, placed).snake.distinct(),
    decreases placed.len(),
{
    if placed.len() > 0 {
        lemma_ticks_keep_distinct(state, board, placed.drop_last());
        lemma_tick_keeps_distinct(state.ticks(board, placed.drop_last()), board, placed.last());
    }
}

/// A new game is well formed exactly when head and food are two different
/// cells of the board.
pub proof fn lemma_initial_wf(head: Position, food: Position, board: GameBoard)
    ensures
        GameView::initial(head, food).snake.distinct(),
        GameView::initial(head, food).wf(board) <==> board.contains_spec(head)
            && board.contains_spec(food) && head != food,
{
    let snake = SnakeView { head, body: Seq::empty() };
    assert(snake.cells() =~= seq![head]);
    assert(snake.cells()[0] == head);
    if snake.occupies(food) {
        let i = choose|i: int| 0 <= i < snake.cells().len() && snake.cells()[i] == food;
        assert(i == 0);
    }
}

/// The cells of a grid `width` wide that come before column `x` of row `y`
/// in row-major order.
pub open spec fn cells_before(width: int, y: int, x: int) -> Set<Position> {
    Set::new(|p: Position| 0 <= p.x < width && (0 <= p.y < y || (p.y == y && p.x < x)))
}

/// Column `x` of row `y` is cell number `y * width + x` in row-major order:
/// that many cells come before it.
pub proof fn lemma_cells_before(width: int, y: int, x: int)
    requires
        0 <= x <= width <= i32::MAX,
        0 <= y <= i32::MAX,
    ensures
        cells_before(width, y, x).finite(),
        cells_before(width, y, x).len() == y * width + x,
    decreases y, x,
{
    broadcast use vstd::set::group_set_axioms;

    if x > 0 {
        lemma_cells_before(width, y, x - 1);
        let cell = Position { x: (x - 1) as i32, y: y as i32 };
        assert(!cells_before(width, y, x - 1).contains(cell));
        assert(cells_before(width, y, x) =~= cells_before(width, y, x - 1).insert(cell));
    } else if y > 0 {
        lemma_cells_before(width, y - 1, width);
        assert(cells_before(width, y, 0) =~= cells_before(width, y - 1, width));
        assert(y * width == (y - 1) * width + width) by (nonlinear_arith);
    } else {
        assert(cells_before(width, 0, 0) =~= Set::<Position>::empty());
        assert(0 * width == 0) by (nonlinear_arith);
    }
}

/// A board has as many cells as its area says.
pub proof fn lemma_board_cells(board: GameBoard)
    requires
        board.wf(),
    ensures
        Set::new(|p: Position| board.contains_spec(p)).finite(),
        Set::new(|p: Position| board.contains_spec(p)).len() == board.spec_area(),
{
    let width = board.spec_width() as int;
    let height = board.spec_height() as int;
    lemma_cells_before(width, height, 0);
    assert(Set::new(|p: Position| board.contains_spec(p)) =~= cells_before(width, height, 0));
    assert(height * width == width * height) by (nonlinear_arith);
}

/// A snake that lies on the board and covers no cell twice leaves a cell
/// free exactly when it has fewer cells than the board.
pub proof fn lemma_free_cell_iff_room(board: GameBoard, snake: SnakeView)
    requires
        board.wf(),
        snake.distinct(),
        snake.within(board),
    ensures
        has_free_cell(board, snake) <==> snake.cells().len() < board.spec_area(),
        snake.cells().len() <= board.spec_area(),
{
    broadcast use vstd::set::group_set_axioms;

    let on_board = Set::new(|p: Position| board.contains_spec(p));
    let covered = snake.occupied();
    lemma_board_cells(board);
    snake.cells().unique_seq_to_set();
    assert(covered.subset_of(on_board)) by {
        assert forall|p: Position| covered.contains(p) implies on_board.contains(p) by {
            let i = choose|i: int| 0 <= i < snake.cells().len() && snake.cells()[i] == p;
            assert(board.contains_spec(snake.cells()[i]));
        }
    }
    vstd::set_lib::lemma_len_subset(covered, on_board);
    if has_free_cell(board, snake) {
        let free = choose|p: Position| is_free(board, snake, p);
        assert(covered.subset_of(on_board.remove(free)));
        vstd::set_lib::lemma_len_subset(covered, on_board.remove(free));
    } else if covered.len() < on_board.len() {
        assert(on_board.subset_of(covered)) by {
            assert forall|p: Position| on_board.contains(p) implies covered.contains(p) by {
                assert(!is_free(board, snake, p));
            }
        }
        vstd::set_lib::lemma_len_subset(on_board, covered);
    }
}

} // verus!
