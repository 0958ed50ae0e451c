//! Heading requests: the rule that refuses a reversal, and the reading of
//! the arrow keys.

use vstd::prelude::*;
use crate::position::Direction;

verus! {

/// The heading that follows from a request: the requested one, unless it is
/// the reverse of the current one, which stays.
pub open spec fn request_spec(current: Direction, requested: Direction) -> Direction {
    if requested == current.opposite_spec() {
        current
    } else {
        requested
    }
}

/// The arrow key that counts when several went down at once: up before
/// down, before left, before right.
pub open spec fn direction_input_spec(up: bool, down: bool, left: bool, right: bool) -> Option<
    Direction,
> {
    if up {
        Some(Direction::Up)
    } else if down {
        Some(Direction::Down)
    } else if left {
        Some(Direction::Left)
    } else if right {
        Some(Direction::Right)
    } else {
        None
    }
}

/// Decides on a requested heading: a snake cannot turn back into its own
/// neck, so the reverse of `current` is refused and `current` stays; any
/// other request is taken.
#[verifier::when_used_as_spec(request_spec)]
pub fn request(current: Direction, requested: Direction) -> (heading: Direction)
    ensures
        heading == request_spec(current, requested),
        requested == current.opposite_spec() ==> heading == current,
        requested != current.opposite_spec() ==> heading == requested,
{
    match (current, requested) {
        (Direction::Up, Direction::Down)
        | (Direction::Down, Direction::Up)
        | (Direction::Left, Direction::Right)
        | (Direction::Right, Direction::Left) => current,
        _ => requested,
    }
}

/// The heading that the arrow keys ask for, given which of them have just
/// been pressed, or `None` if none has.
#[verifier::when_used_as_spec(direction_input_spec)]
pub fn direction_input(up: bool, down: bool, left: bool, right: bool) -> (requested: Option<
    Direction,
>)
    ensures
        requested == direction_input_spec(up, down, left, right),
        requested.is_none() <==> !up && !down && !left && !right,
{
    if up {
        Some(Direction::Up)
    } else if down {
        Some(Direction::Down)
    } else if left {
        Some(Direction::Left)
    } else if right {
        Some(Direction::Right)
    } else {
        None
    }
}

} // verus!
