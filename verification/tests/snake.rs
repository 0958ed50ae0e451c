use std::collections::VecDeque;

use snake_game::position::Position;
use snake_game::snake::Snake;

fn at(x: i32, y: i32) -> Position {
    Position::new(x, y)
}

fn snake_of(head: Position, body: Vec<Position>) -> Snake {
    Snake { head, body: VecDeque::from(body) }
}

fn body_of(s: &Snake) -> Vec<Position> {
    s.body.iter().copied().collect()
}

#[test]
fn new_snake_is_all_head() {
    let s = Snake::new(at(2, 2));
    assert_eq!(s.head, at(2, 2));
    assert!(s.body.is_empty());
}

#[test]
fn occupied_cells_lists_the_head_then_the_body() {
    let s = snake_of(at(3, 1), vec![at(2, 1), at(1, 1), at(1, 0)]);
    assert_eq!(s.occupied_cells(), vec![at(3, 1), at(2, 1), at(1, 1), at(1, 0)]);
}

#[test]
fn occupied_cells_of_a_new_snake_is_the_head() {
    assert_eq!(Snake::new(at(0, 0)).occupied_cells(), vec![at(0, 0)]);
}

#[test]
fn occupies_head_and_segments_and_nothing_else() {
    let s = snake_of(at(3, 1), vec![at(2, 1), at(1, 1)]);
    assert!(s.occupies(at(3, 1)));
    assert!(s.occupies(at(2, 1)));
    assert!(s.occupies(at(1, 1)));
    assert!(!s.occupies(at(0, 1)));
    assert!(!s.occupies(at(1, 3)));
}

#[test]
fn occupies_agrees_with_occupied_cells() {
    let s = snake_of(at(3, 1), vec![at(2, 1), at(1, 1), at(1, 0)]);
    let cells = s.occupied_cells();
    for x in -1..5 {
        for y in -1..5 {
            assert_eq!(s.occupies(at(x, y)), cells.contains(&at(x, y)));
        }
    }
}

#[test]
fn advance_without_growth_shifts_every_segment() {
    let mut s = snake_of(at(3, 1), vec![at(2, 1), at(1, 1), at(1, 0)]);
    s.advance(at(4, 1), false);
    assert_eq!(s.head, at(4, 1));
    assert_eq!(body_of(&s), vec![at(3, 1), at(2, 1), at(1, 1)]);
}

#[test]
fn advance_with_growth_keeps_the_tail() {
    let mut s = snake_of(at(3, 1), vec![at(2, 1), at(1, 1), at(1, 0)]);
    s.advance(at(4, 1), true);
    assert_eq!(s.head, at(4, 1));
    assert_eq!(body_of(&s), vec![at(3, 1), at(2, 1), at(1, 1), at(1, 0)]);
}

#[test]
fn advance_of_a_bare_head_leaves_no_body() {
    let mut s = Snake::new(at(2, 2));
    s.advance(at(3, 2), false);
    assert_eq!(s.head, at(3, 2));
    assert!(s.body.is_empty());
}

#[test]
fn growth_of_a_bare_head_leaves_the_old_head_as_body() {
    let mut s = Snake::new(at(2, 2));
    s.advance(at(3, 2), true);
    assert_eq!(s.head, at(3, 2));
    assert_eq!(body_of(&s), vec![at(2, 2)]);
}

#[test]
fn advance_changes_the_length_by_the_growth_alone() {
    let mut s = snake_of(at(3, 1), vec![at(2, 1), at(1, 1)]);
    for step in 0..10 {
        let before = s.body.len();
        let grow = step % 3 == 0;
        let next = Position::new(s.head.x + 1, s.head.y);
        s.advance(next, grow);
        assert_eq!(s.body.len(), before + if grow { 1 } else { 0 });
    }
}

#[test]
fn blocks_on_a_segment_before_the_tail() {
    let s = snake_of(at(3, 1), vec![at(2, 1), at(1, 1), at(1, 0)]);
    assert!(s.blocks(at(2, 1), false));
    assert!(s.blocks(at(1, 1), false));
    assert!(s.blocks(at(2, 1), true));
}

#[test]
fn the_tail_blocks_only_a_growing_snake() {
    let s = snake_of(at(3, 1), vec![at(2, 1), at(1, 1), at(1, 0)]);
    assert!(!s.blocks(at(1, 0), false));
    assert!(s.blocks(at(1, 0), true));
}

#[test]
fn a_tail_that_is_the_only_segment_blocks() {
    let s = snake_of(at(2, 2), vec![at(1, 2)]);
    assert!(s.blocks(at(1, 2), false));
    assert!(s.blocks(at(1, 2), true));
}

#[test]
fn nothing_blocks_a_bare_head() {
    let s = Snake::new(at(2, 2));
    assert!(!s.blocks(at(2, 2), false));
    assert!(!s.blocks(at(3, 2), true));
}

#[test]
fn the_head_itself_is_no_obstacle() {
    let s = snake_of(at(3, 1), vec![at(2, 1), at(1, 1)]);
    assert!(!s.blocks(at(3, 1), false));
    assert!(!s.blocks(at(3, 1), true));
    assert!(!s.blocks(at(4, 1), false));
}
