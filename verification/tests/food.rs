use std::collections::VecDeque;

use snake_game::board::GameBoard;
use snake_game::food::{cell_for_samples, first_free_cell, get_new_apple_position, random_pos};
use snake_game::position::Position;
use snake_game::snake::Snake;

fn grid(width: i32, height: i32) -> GameBoard {
    GameBoard::new(width, height).expect("positive dimensions")
}

fn xy(x: i32, y: i32) -> Position {
    Position::new(x, y)
}

fn coiled(head: Position, body: Vec<Position>) -> Snake {
    Snake { head, body: VecDeque::from(body) }
}

/// A snake that covers the whole of a 2 by 2 board.
fn full_square() -> Snake {
    coiled(xy(0, 0), vec![xy(1, 0), xy(1, 1), xy(0, 1)])
}

#[test]
fn cell_for_samples_takes_the_remainder_of_the_magnitude() {
    let b = grid(5, 4);
    assert_eq!(cell_for_samples(&b, 0, 0), xy(0, 0));
    assert_eq!(cell_for_samples(&b, 7, 9), xy(2, 1));
    assert_eq!(cell_for_samples(&b, -7, -9), xy(2, 1));
    assert_eq!(cell_for_samples(&b, -7, 9), xy(2, 1));
    assert_eq!(cell_for_samples(&b, 4, 3), xy(4, 3));
    assert_eq!(cell_for_samples(&b, 5, 4), xy(0, 0));
    assert_eq!(cell_for_samples(&b, -1, -1), xy(1, 1));
}

#[test]
fn cell_for_samples_handles_the_ends_of_the_range() {
    let b = grid(5, 7);
    // 2147483647 = 5 * 429496729 + 2 = 7 * 306783378 + 1
    assert_eq!(cell_for_samples(&b, i32::MAX, i32::MAX), xy(2, 1));
    // 2147483648 = 5 * 429496729 + 3 = 7 * 306783378 + 2
    assert_eq!(cell_for_samples(&b, i32::MIN, i32::MIN), xy(3, 2));
}

#[test]
fn cell_for_samples_on_the_widest_board() {
    let b = grid(i32::MAX, 1);
    assert_eq!(cell_for_samples(&b, i32::MIN, 12345), xy(1, 0));
    assert_eq!(cell_for_samples(&b, i32::MAX, -12345), xy(0, 0));
    assert_eq!(cell_for_samples(&b, -5, 0), xy(5, 0));
}

#[test]
fn cell_for_samples_always_lands_on_the_board() {
    let b = grid(3, 8);
    for sx in [-100, -9, -3, -1, 0, 1, 2, 3, 50, i32::MAX, i32::MIN] {
        for sy in [-100, -8, -1, 0, 7, 8, 9, i32::MAX, i32::MIN] {
            assert!(b.contains(cell_for_samples(&b, sx, sy)));
        }
    }
}

#[test]
fn random_pos_lies_on_the_board() {
    let b = grid(5, 3);
    for _ in 0..500 {
        assert!(b.contains(random_pos(&b)));
    }
}

#[test]
fn random_pos_on_a_single_cell_is_that_cell() {
    let b = grid(1, 1);
    for _ in 0..20 {
        assert_eq!(random_pos(&b), xy(0, 0));
    }
}

#[test]
fn random_pos_reaches_every_cell_of_a_small_board() {
    let b = grid(2, 2);
    let mut seen = [false; 4];
    for _ in 0..2000 {
        let c = random_pos(&b);
        seen[(c.y * 2 + c.x) as usize] = true;
    }
    assert_eq!(seen, [true; 4]);
}

#[test]
fn first_free_cell_of_an_empty_corner_is_the_origin() {
    let b = grid(5, 5);
    let s = Snake::new(xy(2, 2));
    assert_eq!(first_free_cell(&b, &s), Some(xy(0, 0)));
}

#[test]
fn first_free_cell_goes_along_the_row_first() {
    let b = grid(3, 3);
    let s = coiled(xy(0, 0), vec![xy(1, 0)]);
    assert_eq!(first_free_cell(&b, &s), Some(xy(2, 0)));
}

#[test]
fn first_free_cell_goes_to_the_next_row_after_a_full_one() {
    let b = grid(3, 3);
    let s = coiled(xy(0, 1), vec![xy(0, 0), xy(1, 0), xy(2, 0)]);
    assert_eq!(first_free_cell(&b, &s), Some(xy(1, 1)));
}

#[test]
fn first_free_cell_of_a_full_board_is_none() {
    let b = grid(2, 2);
    assert_eq!(first_free_cell(&b, &full_square()), None);
}

#[test]
fn first_free_cell_ignores_cells_off_the_board() {
    let b = grid(1, 2);
    let s = coiled(xy(0, 0), vec![xy(5, 5), xy(-1, 0)]);
    assert_eq!(first_free_cell(&b, &s), Some(xy(0, 1)));
}

#[test]
fn new_apple_is_on_the_board_and_off_the_snake() {
    let b = grid(5, 5);
    let s = coiled(xy(3, 2), vec![xy(2, 2)]);
    for _ in 0..300 {
        let apple = get_new_apple_position(&b, &s).expect("23 cells are free");
        assert!(b.contains(apple));
        assert!(!s.occupies(apple));
        assert_ne!(apple, xy(3, 2));
        assert_ne!(apple, xy(2, 2));
    }
}

#[test]
fn new_apple_takes_the_only_free_cell() {
    let b = grid(2, 2);
    let s = coiled(xy(0, 0), vec![xy(1, 0), xy(1, 1)]);
    for _ in 0..50 {
        assert_eq!(get_new_apple_position(&b, &s), Some(xy(0, 1)));
    }
}

#[test]
fn new_apple_on_a_full_board_is_none() {
    let b = grid(2, 2);
    assert_eq!(get_new_apple_position(&b, &full_square()), None);
}

#[test]
fn new_apple_on_a_full_single_cell_is_none() {
    let b = grid(1, 1);
    assert_eq!(get_new_apple_position(&b, &Snake::new(xy(0, 0))), None);
}

#[test]
fn new_apple_with_the_snake_off_the_board_is_any_cell() {
    let b = grid(1, 1);
    let s = Snake::new(xy(7, 7));
    assert_eq!(get_new_apple_position(&b, &s), Some(xy(0, 0)));
}

#[test]
fn new_apple_reaches_every_free_cell() {
    let b = grid(2, 2);
    let s = Snake::new(xy(0, 0));
    let mut seen = [false; 4];
    for _ in 0..2000 {
        let c = get_new_apple_position(&b, &s).expect("three cells are free");
        seen[(c.y * 2 + c.x) as usize] = true;
    }
    assert_eq!(seen, [false, true, true, true]);
}
