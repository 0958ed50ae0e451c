//! Grid cells and the four headings, with the step from a cell to its neighbour.

use vstd::prelude::*;

verus! {

/// One of the four axis-aligned headings.
#[derive(Clone, Copy, Debug, PartialEq, Eq, Hash, Structural)]
pub enum Direction {
    Up,
    Down,
    Left,
    Right,
}

impl Direction {
    /// The heading that points the other way.
    pub open spec fn opposite_spec(self) -> Direction {
        match self {
            Direction::Up => Direction::Down,
            Direction::Down => Direction::Up,
            Direction::Left => Direction::Right,
            Direction::Right => Direction::Left,
        }
    }

    /// Change of the x coordinate on one step along this heading.
    pub open spec fn dx(self) -> int {
        match self {
            Direction::Left => -1,
            Direction::Right => 1,
            _ => 0,
        }
    }

    /// Change of the y coordinate on one step along this heading.
    pub open spec fn dy(self) -> int {
        match self {
            Direction::Up => 1,
            Direction::Down => -1,
            _ => 0,
        }
    }

    /// The heading that points the other way.
    #[verifier::when_used_as_spec(opposite_spec)]
    pub fn opposite(self) -> (d: Direction)
        ensures
            d == self.opposite_spec(),
    {
        match self {
            Direction::Up => Direction::Down,
            Direction::Down => Direction::Up,
            Direction::Left => Direction::Right,
            Direction::Right => Direction::Left,
        }
    }
}

/// A cell of the grid. Whether it lies on a board is for the board to say.
#[derive(Clone, Copy, Debug, PartialEq, Eq, Hash, Structural)]
pub struct Position {
    pub x: i32,
    pub y: i32,
}

impl Position {
    /// The x coordinate one step along `dir`, as an unbounded integer.
    pub open spec fn step_x(self, dir: Direction) -> int {
        self.x + dir.dx()
    }

    /// The y coordinate one step along `dir`, as an unbounded integer.
    pub open spec fn step_y(self, dir: Direction) -> int {
        self.y + dir.dy()
    }

    /// Whether the neighbour along `dir` still has machine coordinates.
    pub open spec fn can_move(self, dir: Direction) -> bool {
        &&& i32::MIN <= self.step_x(dir) <= i32::MAX
        &&& i32::MIN <= self.step_y(dir) <= i32::MAX
    }

    /// The neighbour along `dir`.
    pub open spec fn moved(self, dir: Direction) -> Position
        recommends
            self.can_move(dir),
    {
        Position { x: self.step_x(dir) as i32, y: self.step_y(dir) as i32 }
    }

    /// The cell in column `x` of row `y`.
    pub fn new(x: i32, y: i32) -> (p: Position)
        ensures
            p == (Position { x, y }),
    {
        Position { x, y }
    }

    /// The neighbour along `dir`: up raises y, down lowers it, left lowers x,
    /// right raises it. No board is consulted. The neighbour must have
    /// coordinates in the range of `i32`; `checked_move_towards` asks for
    /// nothing.
    pub fn move_towards(self, dir: Direction) -> (p: Position)
        requires
            self.can_move(dir),
        ensures
            p == self.moved(dir),
            p.x == self.step_x(dir),
            p.y == self.step_y(dir),
    {
        match dir {
            Direction::Up => Position::new(self.x, self.y + 1),
            Direction::Down => Position::new(self.x, self.y - 1),
            Direction::Left => Position::new(self.x - 1, self.y),
            Direction::Right => Position::new(self.x + 1, self.y),
        }
    }

    /// The neighbour along `dir`, or `None` where its coordinate would leave
    /// the range of `i32`.
    pub fn checked_move_towards(self, dir: Direction) -> (r: Option<Position>)
        ensures
            r.is_some() == self.can_move(dir),
            r.is_some() ==> r.unwrap() == self.moved(dir),
    {
        let fits = match dir {
            Direction::Up => self.y < i32::MAX,
            Direction::Down => self.y > i32::MIN,
            Direction::Left => self.x > i32::MIN,
            Direction::Right => self.x < i32::MAX,
        };
        if fits {
            Some(self.move_towards(dir))
        } else {
            None
        }
    }
}

} // verus!
