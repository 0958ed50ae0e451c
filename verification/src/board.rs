//! The board: a grid of fixed, strictly positive width and height.

use vstd::prelude::*;
use crate::position::Position;

verus! {

/// Why a board could not be made.
#[derive(Clone, Copy, Debug, PartialEq, Eq, Structural)]
pub enum BoardError {
    /// The width was zero or negative.
    NonPositiveWidth,
    /// The width was positive, the height zero or negative.
    NonPositiveHeight,
}

/// The dimensions of the grid. They never change, and both are positive: no
/// other board can be made.
#[derive(Clone, Copy, Debug, PartialEq, Eq, Structural)]
pub struct GameBoard {
    width: i32,
    height: i32,
}

impl GameBoard {
    /// Number of columns.
    pub closed spec fn spec_width(&self) -> i32 {
        self.width
    }

    /// Number of rows.
    pub closed spec fn spec_height(&self) -> i32 {
        self.height
    }

    /// Both dimensions are positive. Every board that executable code holds
    /// is well formed; a proof about an arbitrary board assumes it.
    #[verifier::type_invariant]
    pub open spec fn wf(self) -> bool {
        self.spec_width() > 0 && self.spec_height() > 0
    }

    /// Whether column `x` of row `y` is a cell of the board.
    pub open spec fn holds(self, x: int, y: int) -> bool {
        0 <= x < self.spec_width() && 0 <= y < self.spec_height()
    }

    /// Whether `pos` is a cell of the board.
    pub open spec fn contains_spec(&self, pos: Position) -> bool {
        self.holds(pos.x as int, pos.y as int)
    }

    /// Number of cells.
    pub open spec fn spec_area(self) -> int {
        self.spec_width() * self.spec_height()
    }

    /// A board of the given dimensions. One that is not positive is refused,
    /// the width being looked at first.
    pub fn new(width: i32, height: i32) -> (r: Result<GameBoard, BoardError>)
        ensures
            r.is_ok() <==> width > 0 && height > 0,
            r matches Ok(b) ==> b.wf() && b.spec_width() == width && b.spec_height() == height,
            r matches Err(e) ==> (e == BoardError::NonPositiveWidth <==> width <= 0),
    {
        if width <= 0 {
            Err(BoardError::NonPositiveWidth)
        } else if height <= 0 {
            Err(BoardError::NonPositiveHeight)
        } else {
            Ok(GameBoard { width, height })
        }
    }

    /// Number of columns.
    #[verifier::when_used_as_spec(spec_width)]
    pub fn width(&self) -> (w: i32)
        ensures
            w == self.spec_width(),
            w > 0,
    {
        proof {
            use_type_invariant(self);
        }
        self.width
    }

    /// Number of rows.
    #[verifier::when_used_as_spec(spec_height)]
    pub fn height(&self) -> (h: i32)
        ensures
            h == self.spec_height(),
            h > 0,
    {
        proof {
            use_type_invariant(self);
        }
        self.height
    }

    /// Number of cells. The largest board has fewer than `2^62`.
    pub fn area(&self) -> (a: u64)
        ensures
            a == self.spec_area(),
            a > 0,
    {
        let w: u64 = self.width() as u64;
        let h: u64 = self.height() as u64;
        assert(0 < w * h <= 0x7fff_ffff * 0x7fff_ffff) by (nonlinear_arith)
            requires
                0 < w <= 0x7fff_ffff,
                0 < h <= 0x7fff_ffff,
        ;
        w * h
    }

    /// Whether `pos` is a cell of the board: `0 <= x < width` and
    /// `0 <= y < height`.
    #[verifier::when_used_as_spec(contains_spec)]
    pub fn contains(&self, pos: Position) -> (r: bool)
        ensures
            r == self.contains_spec(pos),
    {
        0 <= pos.x && pos.x < self.width && 0 <= pos.y && pos.y < self.height
    }
}

} // verus!
