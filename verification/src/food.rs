//! Food placement: a cell of the board that the snake does not cover.
//!
//! Candidates are drawn at random and rejected while they lie on the snake.
//! Rejection alone ends only with probability one, so the draws are counted:
//! after one draw per cell of the board the first free cell in row-major
//! order is taken. A board that the snake fills has no free cell and gets no
//! food.

use vstd::prelude::*;
use crate::board::GameBoard;
use crate::position::Position;
use crate::snake::{Snake, SnakeView};

verus! {

/// Whether `pos` is a cell of the board that the snake leaves free.
pub open spec fn is_free(board: GameBoard, snake: SnakeView, pos: Position) -> bool {
    board.contains_spec(pos) && !snake.occupies(pos)
}

/// Whether the snake leaves any cell of the board free.
pub open spec fn has_free_cell(board: GameBoard, snake: SnakeView) -> bool {
    exists|pos: Position| #[trigger] is_free(board, snake, pos)
}

/// Row-major order: rows from the bottom up, each from left to right.
pub open spec fn precedes(a: Position, b: Position) -> bool {
    a.y < b.y || (a.y == b.y && a.x < b.x)
}

/// The coordinate in `0..extent` that a sample stands for: the remainder of
/// its magnitude.
pub open spec fn folded(sample: int, extent: int) -> int {
    (vstd::math::abs(sample) as int) % extent
}

/// One draw from `rand::random::<i32>()`, the thread-local generator of the
/// `rand` crate. Nothing is claimed of the value: every `i32` can come back,
/// and two draws need not agree. It panics only where the operating system
/// gives the generator no seed when a thread first draws.
#[verifier::external_body]
fn random_i32() -> (sample: i32) {
    rand::random::<i32>()
}

/// The cell that a pair of samples stands for, each folded onto its axis.
pub fn cell_for_samples(board: &GameBoard, sample_x: i32, sample_y: i32) -> (pos: Position)
    ensures
        pos.x == folded(sample_x as int, board.spec_width() as int),
        pos.y == folded(sample_y as int, board.spec_height() as int),
        board.contains_spec(pos),
{
    let rx: i32 = sample_x % board.width();
    let ry: i32 = sample_y % board.height();
    Position::new(if rx < 0 { -rx } else { rx }, if ry < 0 { -ry } else { ry })
}

/// A cell of the board drawn at random.
pub fn random_pos(board: &GameBoard) -> (pos: Position)
    ensures
        board.contains_spec(pos),
{
    let sample_x: i32 = random_i32();
    let sample_y: i32 = random_i32();
    cell_for_samples(board, sample_x, sample_y)
}

/// The first cell in row-major order that the snake leaves free, or `None`
/// if it covers the whole board.
pub fn first_free_cell(board: &GameBoard, snake: &Snake) -> (r: Option<Position>)
    ensures
        r.is_some() == has_free_cell(*board, snake@),
        r matches Some(pos) ==> {
            &&& is_free(*board, snake@, pos)
            &&& forall|q: Position| #[trigger]
                board.contains_spec(q) && precedes(q, pos) ==> snake@.occupies(q)
        },
{
    let width: i32 = board.width();
    let height: i32 = board.height();
    let mut y: i32 = 0;
    while y < height
        invariant
            width == board.spec_width(),
            height == board.spec_height(),
            0 < width,
            0 <= y <= height,
            forall|q: Position| #[trigger]
                board.contains_spec(q) && q.y < y ==> snake@.occupies(q),
        decreases height - y,
    {
        let mut x: i32 = 0;
        while x < width
            invariant
                width == board.spec_width(),
                height == board.spec_height(),
                0 <= y < height,
                0 <= x <= width,
                forall|q: Position| #[trigger]
                    board.contains_spec(q) && (q.y < y || (q.y == y && q.x < x))
                        ==> snake@.occupies(q),
            decreases width - x,
        {
            let pos = Position::new(x, y);
            if !snake.occupies(pos) {
                assert(is_free(*board, snake@, pos));
                return Some(pos);
            }
            x += 1;
        }
        y += 1;
    }
    assert forall|pos: Position| !is_free(*board, snake@, pos) by {
        if board.contains_spec(pos) {
            assert(pos.y < y);
        }
    }
    None
}

/// A new place for the food: a cell of the board that the snake does not
/// cover, or `None` if there is none.
pub fn get_new_apple_position(board: &GameBoard, snake: &Snake) -> (r: Option<Position>)
    ensures
        r.is_some() == has_free_cell(*board, snake@),
        r matches Some(pos) ==> board.contains_spec(pos) && !snake@.occupies(pos),
{
    match first_free_cell(board, snake) {
        None => None,
        Some(fallback) => {
            let draws: u64 = board.area();
            let mut drawn: u64 = 0;
            while drawn < draws
                invariant
                    drawn <= draws,
                    is_free(*board, snake@, fallback),
                decreases draws - drawn,
            {
                let candidate = random_pos(board);
                if !snake.occupies(candidate) {
                    assert(is_free(*board, snake@, candidate));
                    return Some(candidate);
                }
                drawn += 1;
            }
            Some(fallback)
        },
    }
}

} // verus!
