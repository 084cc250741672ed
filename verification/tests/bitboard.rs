use chesscore::bitboard;
use chesscore::consts::BitBoard;
use chesscore::consts::Square;
use chesscore::consts::BB_EMPTY;
use chesscore::consts::BB_FILE_A;
use chesscore::consts::BB_FILE_B;
use chesscore::consts::BB_FULL;

#[test]
fn bitboard_to_string() {
    let bbstr = bitboard::to_string(1);
    let bbstrlen = bbstr.len();
    assert_eq!(bbstrlen, 136);
    assert_eq!(bbstr.starts_with("0 0 0 0 0 0 0 0 \n"), true);
    assert_eq!(bbstr.ends_with("1 0 0 0 0 0 0 0 \n"), true);
}

#[test]
fn bitboard_empty() {
    let empty: BitBoard = BB_EMPTY;
    assert_eq!(empty, 0);
    assert!(!bitboard::one(empty));
    assert!(!bitboard::many(empty));
}

#[test]
fn full() {
    let full = BB_FULL;
    assert_eq!(full, 18446744073709551615);
    assert!(!bitboard::one(full));
    assert!(bitboard::many(full));
}

#[test]
fn north_east_one() {
    let mut bb = bitboard::from_square(Square::A1);
    let mut ne_bb = bitboard::north_east_one(bb);
    assert_eq!(ne_bb, bitboard::from_square(Square::B2));
    bb = bitboard::from_square(Square::B5);
    ne_bb = bitboard::north_east_one(bb);
    assert_eq!(ne_bb, bitboard::from_square(Square::C6));
    bb = bitboard::from_square(Square::H4);
    ne_bb = bitboard::north_east_one(bb);
    assert_eq!(ne_bb, BB_EMPTY);
    bb = bitboard::from_square(Square::G8);
    ne_bb = bitboard::north_east_one(bb);
    assert_eq!(ne_bb, BB_EMPTY);
}

#[test]
fn north_west_one() {
    let mut bb = bitboard::from_square(Square::H1);
    let mut ne_bb = bitboard::north_west_one(bb);
    assert_eq!(ne_bb, bitboard::from_square(Square::G2));
    bb = bitboard::from_square(Square::B5);
    ne_bb = bitboard::north_west_one(bb);
    assert_eq!(ne_bb, bitboard::from_square(Square::A6));
    bb = bitboard::from_square(Square::A4);
    ne_bb = bitboard::north_west_one(bb);
    assert_eq!(ne_bb, BB_EMPTY);
    bb = bitboard::from_square(Square::G8);
    ne_bb = bitboard::north_west_one(bb);
    assert_eq!(ne_bb, BB_EMPTY);
}

#[test]
fn south_east_one() {
    let mut bb = bitboard::from_square(Square::A2);
    let mut ne_bb = bitboard::south_east_one(bb);
    assert_eq!(ne_bb, bitboard::from_square(Square::B1));
    bb = bitboard::from_square(Square::B5);
    ne_bb = bitboard::south_east_one(bb);
    assert_eq!(ne_bb, bitboard::from_square(Square::C4));
    bb = bitboard::from_square(Square::H4);
    ne_bb = bitboard::south_east_one(bb);
    assert_eq!(ne_bb, BB_EMPTY);
    bb = bitboard::from_square(Square::G1);
    ne_bb = bitboard::south_east_one(bb);
    assert_eq!(ne_bb, BB_EMPTY);
}

#[test]
fn south_west_one() {
    let mut bb = bitboard::from_square(Square::H2);
    let mut ne_bb = bitboard::south_west_one(bb);
    assert_eq!(ne_bb, bitboard::from_square(Square::G1));
    bb = bitboard::from_square(Square::B5);
    ne_bb = bitboard::south_west_one(bb);
    assert_eq!(ne_bb, bitboard::from_square(Square::A4));
    bb = bitboard::from_square(Square::A4);
    ne_bb = bitboard::south_west_one(bb);
    assert_eq!(ne_bb, BB_EMPTY);
    bb = bitboard::from_square(Square::G1);
    ne_bb = bitboard::south_west_one(bb);
    assert_eq!(ne_bb, BB_EMPTY);
}

#[test]
fn east_one() {
    let mut bb = bitboard::from_square(Square::A2);
    let mut ne_bb = bitboard::east_one(bb);
    assert_eq!(ne_bb, bitboard::from_square(Square::B2));
    bb = bitboard::from_square(Square::B5);
    ne_bb = bitboard::east_one(bb);
    assert_eq!(ne_bb, bitboard::from_square(Square::C5));
    bb = bitboard::from_square(Square::H4);
    ne_bb = bitboard::east_one(bb);
    assert_eq!(ne_bb, BB_EMPTY);
}

#[test]
fn west_one() {
    let mut bb = bitboard::from_square(Square::B2);
    let mut ne_bb = bitboard::west_one(bb);
    assert_eq!(ne_bb, bitboard::from_square(Square::A2));
    bb = bitboard::from_square(Square::B5);
    ne_bb = bitboard::west_one(bb);
    assert_eq!(ne_bb, bitboard::from_square(Square::A5));
    bb = bitboard::from_square(Square::A4);
    ne_bb = bitboard::west_one(bb);
    assert_eq!(ne_bb, BB_EMPTY);
}

#[test]
fn north_one() {
    let mut bb = bitboard::from_square(Square::B2);
    let mut ne_bb = bitboard::north_one(bb);
    assert_eq!(ne_bb, bitboard::from_square(Square::B3));
    bb = bitboard::from_square(Square::B5);
    ne_bb = bitboard::north_one(bb);
    assert_eq!(ne_bb, bitboard::from_square(Square::B6));
    bb = bitboard::from_square(Square::B8);
    ne_bb = bitboard::north_one(bb);
    assert_eq!(ne_bb, BB_EMPTY);
}

#[test]
fn south_one() {
    let mut bb = bitboard::from_square(Square::B2);
    let mut ne_bb = bitboard::south_one(bb);
    assert_eq!(ne_bb, bitboard::from_square(Square::B1));
    bb = bitboard::from_square(Square::B5);
    ne_bb = bitboard::south_one(bb);
    assert_eq!(ne_bb, bitboard::from_square(Square::B4));
    bb = bitboard::from_square(Square::B1);
    ne_bb = bitboard::south_one(bb);
    assert_eq!(ne_bb, BB_EMPTY);
}

#[test]
fn isolate_lsb() {
    let bb = BB_FILE_A;
    let isolated = bitboard::isolate_lsb(bb);
    assert_eq!(isolated, bitboard::from_square(Square::A1));
}

#[test]
fn without_lsb() {
    let bb = bitboard::from_square(Square::A2) | bitboard::from_square(Square::A3);
    let without_lsb = bitboard::without_lsb(bb);
    assert_eq!(without_lsb, bitboard::from_square(Square::A3));
}

#[test]
fn add_square() {
    let one = Square::E4.as_bb();
    assert_ne!(one, BB_EMPTY);
    assert!(bitboard::one(one));
    assert!(!bitboard::many(one));

    let two = bitboard::add_square(one, Square::E5);
    assert_ne!(two, BB_EMPTY);
    assert!(!bitboard::one(two));
    assert!(bitboard::many(two));
}

#[test]
fn iter() {
    let bb = BB_FILE_A;
    let mut bb_it = bitboard::iter(bb);
    assert_eq!(bb_it.next(), Some(Square::A1));
    assert_eq!(bb_it.next(), Some(Square::A2));
    bb_it = bitboard::iter(BB_FILE_B);
    let mut bstr: Vec<String> = Vec::new();
    while let Some(s) = bb_it.next() {
        bstr.push(s.name().to_string());
    }
    assert_eq!(bstr, vec!["b1", "b2", "b3", "b4", "b5", "b6", "b7", "b8"]);
}

#[test]
fn iter_ascending() {
    let bb: BitBoard = 0x8000_0400_0010_0001;
    let mut it = bitboard::iter(bb);
    let mut seen: Vec<u8> = Vec::new();
    while let Some(s) = it.next() {
        seen.push(s.inner());
    }
    assert_eq!(seen, vec![0, 20, 42, 63]);
}

#[test]
fn first_of_empty_is_a1() {
    assert_eq!(bitboard::first(BB_EMPTY), Square::A1);
    assert_eq!(bitboard::first(Square::D5.as_bb()), Square::D5);
}

#[test]
fn contains_and_membership() {
    let bb = Square::C3.as_bb() | Square::F6.as_bb();
    assert!(bitboard::contains(bb, Square::C3.as_bb()));
    assert!(!bitboard::contains(bb, Square::C4.as_bb()));
    assert!(bitboard::contains_square(bb, Square::F6));
    assert!(!bitboard::contains_square(bb, Square::F5));
    let removed = bitboard::remove_square(bb, Square::C3);
    assert_eq!(removed, Square::F6.as_bb());
    let toggled = bitboard::toggle_square(removed, Square::C3);
    assert_eq!(toggled, bb);
}
