//! The snake: a head and the segments that follow it, front to back.

use std::collections::VecDeque;
use vstd::prelude::*;
use crate::board::GameBoard;
use crate::position::Position;

verus! {

/// The cells of a snake. `body[0]` is the segment right behind the head and
/// the last element is the tail. That no cell occurs twice is kept by the
/// game's collision rules, not by this type.
#[derive(Clone, Debug, PartialEq, Eq)]
pub struct Snake {
    pub head: Position,
    pub body: VecDeque<Position>,
}

/// What a snake is to a contract: its head and the sequence of its segments.
pub struct SnakeView {
    pub head: Position,
    pub body: Seq<Position>,
}

impl View for Snake {
    type V = SnakeView;

    open spec fn view(&self) -> SnakeView {
        SnakeView { head: self.head, body: self.body@ }
    }
}

impl SnakeView {
    /// The head followed by the body.
    pub open spec fn cells(self) -> Seq<Position> {
        seq![self.head] + self.body
    }

    /// The set of cells that the snake covers.
    pub open spec fn occupied(self) -> Set<Position> {
        self.cells().to_set()
    }

    /// Whether the snake covers `pos`.
    pub open spec fn occupies(self, pos: Position) -> bool {
        self.cells().contains(pos)
    }

    /// Head and segments are pairwise distinct.
    pub open spec fn distinct(self) -> bool {
        self.cells().no_duplicates()
    }

    /// Head and segments all lie on the board.
    pub open spec fn within(self, board: GameBoard) -> bool {
        forall|i: int|
            0 <= i < self.cells().len() ==> board.contains_spec(#[trigger] self.cells()[i])
    }

    /// The segments that a head moving on could run into. A snake that does
    /// not grow pulls its tail away in the same move, so the tail is no
    /// obstacle. Two tails are: that of a growing snake, which stays where
    /// it is, and a tail that is the only segment, which moves to where the
    /// head was, straight through the head coming the other way.
    pub open spec fn obstacles(self, grow: bool) -> Seq<Position> {
        if grow || self.body.len() <= 1 {
            self.body
        } else {
            self.body.drop_last()
        }
    }

    /// Whether a head arriving at `pos` runs into the body.
    pub open spec fn blocks(self, pos: Position, grow: bool) -> bool {
        self.obstacles(grow).contains(pos)
    }

    /// The snake after its head has gone to `new_head`. Each segment takes
    /// the place of the one before it and the first takes the head's, so the
    /// new body is the old cells without the tail; a growing snake keeps the
    /// tail and is one segment longer.
    pub open spec fn advanced(self, new_head: Position, grow: bool) -> SnakeView {
        SnakeView {
            head: new_head,
            body: if grow {
                self.cells()
            } else {
                self.cells().drop_last()
            },
        }
    }
}

impl Snake {
    /// A snake that is all head.
    pub fn new(head: Position) -> (s: Snake)
        ensures
            s@.head == head,
            s@.body == Seq::<Position>::empty(),
    {
        Snake { head, body: VecDeque::new() }
    }

    /// The cells that the snake covers, head first, in time linear in its
    /// length. As a set they are `self@.occupied()`.
    pub fn occupied_cells(&self) -> (cells: Vec<Position>)
        ensures
            cells@ == self@.cells(),
            cells@.to_set() == self@.occupied(),
    {
        let mut cells: Vec<Position> = Vec::new();
        cells.push(self.head);
        let n: usize = self.body.len();
        let mut i: usize = 0;
        while i < n
            invariant
                n == self.body@.len(),
                i <= n,
                cells@ == seq![self.head] + self.body@.take(i as int),
            decreases n - i,
        {
            cells.push(self.body[i]);
            assert(self.body@.take(i + 1) == self.body@.take(i as int).push(self.body@[i as int]));
            i += 1;
        }
        assert(self.body@.take(n as int) == self.body@);
        cells
    }

    /// Whether the snake covers `pos`.
    pub fn occupies(&self, pos: Position) -> (r: bool)
        ensures
            r == self@.occupies(pos),
            r == self@.occupied().contains(pos),
    {
        if self.head == pos {
            assert(self@.cells()[0] == pos);
            return true;
        }
        let n: usize = self.body.len();
        let mut i: usize = 0;
        while i < n
            invariant
                n == self.body@.len(),
                i <= n,
                self.head != pos,
                forall|j: int| 0 <= j < i ==> self.body@[j] != pos,
            decreases n - i,
        {
            if self.body[i] == pos {
                assert(self@.cells()[i + 1] == pos);
                return true;
            }
            i += 1;
        }
        false
    }

    /// Whether a head arriving at `pos` runs into the body: `pos` is one of
    /// the segments, the tail left out if the snake does not grow on this
    /// move and has a segment before the tail.
    pub fn blocks(&self, pos: Position, grow: bool) -> (r: bool)
        ensures
            r == self@.blocks(pos, grow),
    {
        let len: usize = self.body.len();
        let n: usize = if grow || len <= 1 { len } else { len - 1 };
        let mut i: usize = 0;
        while i < n
            invariant
                n == self@.obstacles(grow).len(),
                n <= self.body@.len(),
                i <= n,
                forall|j: int| 0 <= j < n ==> self@.obstacles(grow)[j] == self.body@[j],
                forall|j: int| 0 <= j < i ==> self.body@[j] != pos,
            decreases n - i,
        {
            if self.body[i] == pos {
                assert(self@.obstacles(grow)[i as int] == pos);
                return true;
            }
            i += 1;
        }
        false
    }

    /// Moves the head to `new_head`. The old head becomes the first segment
    /// and, unless the snake grows, the tail is dropped: a move keeps the
    /// length, growth adds one.
    pub fn advance(&mut self, new_head: Position, grow: bool)
        ensures
            final(self)@ == old(self)@.advanced(new_head, grow),
            final(self)@.head == new_head,
            final(self)@.body.len() == old(self)@.body.len() + if grow { 1int } else { 0int },
            final(self)@.body.len() > 0 ==> final(self)@.body[0] == old(self)@.head,
    {
        let vacated = self.head;
        self.body.push_front(vacated);
        if !grow {
            self.body.pop_back();
        }
        self.head = new_head;
    }
}

} // verus!
