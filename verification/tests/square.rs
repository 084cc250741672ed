use std::str::FromStr;

use chesscore::consts::Colour;
use chesscore::consts::File;
use chesscore::consts::Rank;
use chesscore::consts::Square;

#[test]
fn square_to_string() {
    let bbstr = Square::B3.name();
    let bbstrlen = bbstr.len();
    assert_eq!(bbstrlen, 2);
    assert_eq!(bbstr, "b3");
}

#[test]
fn from_str() {
    let square = Square::from_str("b3").unwrap();
    assert_eq!(square, Square::B3);
    assert!(Square::from_str("invalid").is_err());
}

#[test]
fn from_rank_file() {
    let square = Square::from_rank_file(Rank::Three, File::B);
    assert_eq!(square, Square::B3);
}

#[test]
fn flip_rank() {
    let square = Square::A1.flip_rank();
    assert_eq!(square, Square::A8);
    let square = Square::H8.flip_rank();
    assert_eq!(square, Square::H1);
}

#[test]
fn flip_file() {
    let square = Square::A1.flip_file();
    assert_eq!(square, Square::H1);
    let square = Square::H8.flip_file();
    assert_eq!(square, Square::A8);
}

#[test]
fn relative_to() {
    let square = Square::A1.relative_to(Colour::White);
    assert_eq!(square, Square::A1);
    let square = Square::A1.relative_to(Colour::Black);
    assert_eq!(square, Square::A8);
}

#[test]
fn file() {
    let square = Square::B3;
    let file = square.file();
    assert_eq!(file, File::B);
}

#[test]
fn rank() {
    let square = Square::B3;
    let rank = square.rank();
    assert_eq!(rank, Rank::Three);
}

#[test]
fn distance() {
    let square1 = Square::A1;
    let square2 = Square::B2;
    let distance = Square::distance(square1, square2);
    assert_eq!(distance, 1);
    let square3 = Square::C3;
    let distance = Square::distance(square1, square3);
    assert_eq!(distance, 2);
}

#[test]
fn square_index() {
    let square = Square::B3;
    let index = square.index();
    assert_eq!(index, 17);
    let square_from_index = Square::new(index as u8).unwrap();
    assert_eq!(square, square_from_index);
}

#[test]
fn square_inner() {
    let square = Square::B3;
    let inner = square.inner();
    assert_eq!(inner, 17);
    let square_from_inner = Square::new(inner).unwrap();
    assert_eq!(square, square_from_inner);
}

#[test]
fn square_add() {
    let square = Square::B3;
    let new_square = square.add(2).unwrap();
    assert_eq!(new_square, Square::D3);
    let out_of_bounds_square = square.add(100);
    assert!(out_of_bounds_square.is_none());
}

#[test]
fn square_sub() {
    let square = Square::B3;
    let new_square = square.sub(2).unwrap();
    assert_eq!(new_square, Square::H2);
    let out_of_bounds_square = square.sub(100);
    assert!(out_of_bounds_square.is_none());
}

#[test]
fn as_bb() {
    let square = Square::B3;
    let bb = square.as_bb();
    assert_eq!(bb, 1u64 << 17);
}

#[test]
fn pawn_push() {
    let square = Square::B3;
    let pushed_square = square.pawn_push(Colour::White).unwrap();
    assert_eq!(pushed_square, Square::B4);
    let pushed_square_black = square.pawn_push(Colour::Black).unwrap();
    assert_eq!(pushed_square_black, Square::B2);
}

#[test]
fn pawn_right() {
    let square = Square::B3;
    let right_square = square.pawn_right(Colour::White).unwrap();
    assert_eq!(right_square, Square::C4);
    let right_square_black = square.pawn_right(Colour::Black).unwrap();
    assert_eq!(right_square_black, Square::C2);
}

#[test]
fn pawn_left() {
    let square = Square::B3;
    let left_square = square.pawn_left(Colour::White).unwrap();
    assert_eq!(left_square, Square::A4);
    let left_square_black = square.pawn_left(Colour::Black).unwrap();
    assert_eq!(left_square_black, Square::A2);
}

#[test]
fn le_ge_lt_gt() {
    let square1 = Square::B3;
    let square2 = Square::C4;
    assert!(square1.le(square2));
    assert!(square1.lt(square2));
    assert!(!square1.ge(square2));
    assert!(!square1.gt(square2));

    let square3 = Square::B3;
    assert!(square3.le(square1));
    assert!(!square3.lt(square1));
    assert!(square3.ge(square1));
    assert!(!square3.gt(square1));
}

#[test]
fn all_squares() {
    let squares: Vec<Square> = Square::all();
    assert_eq!(squares.len(), 64);
    for (i, square) in squares.iter().enumerate() {
        assert_eq!(*square, Square::new(i as u8).unwrap());
    }
}

#[test]
fn name() {
    let square = Square::B3;
    let name = square.name();
    assert_eq!(name, "b3");
    let square_from_name = Square::from_str(name).unwrap();
    assert_eq!(square, square_from_name);
}

#[test]
fn clamped_and_saturating() {
    assert_eq!(Square::new_clamped(17), Square::B3);
    assert_eq!(Square::new_clamped(200), Square::H8);
    assert_eq!(Square::B3.saturating_add(2), Square::D3);
    assert_eq!(Square::H8.saturating_add(10), Square::H8);
}
