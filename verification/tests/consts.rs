use chesscore::consts::Piece;
use chesscore::consts::PieceType;
use chesscore::consts::Square;
use chesscore::consts::BB_EMPTY;
use chesscore::consts::BB_FILE_A;
use chesscore::consts::BB_FULL;
use chesscore::consts::BB_RANK_1;

#[test]
fn bitboard_constants() {
    assert_eq!(BB_EMPTY, 0);
    assert_eq!(BB_FULL, !0);
    assert_eq!(BB_RANK_1, 0x0000_0000_0000_00FF);
    assert_eq!(BB_FILE_A, 0x0101_0101_0101_0101);
}

#[test]
fn square_names() {
    assert_eq!(Square::A1.name(), "a1");
    assert_eq!(Square::new(63).unwrap().name(), "h8");
}

#[test]
fn piece_type_constants() {
    assert_eq!(PieceType::Pawn as u8, 0);
    assert_eq!(PieceType::Knight as u8, 1);
    assert_eq!(PieceType::Bishop as u8, 2);
    assert_eq!(PieceType::Rook as u8, 3);
    assert_eq!(PieceType::Queen as u8, 4);
    assert_eq!(PieceType::King as u8, 5);
}

#[test]
fn piece_constants() {
    assert_eq!(Piece::WP as u8, 0);
    assert_eq!(Piece::WN as u8, 1);
    assert_eq!(Piece::WB as u8, 2);
    assert_eq!(Piece::WR as u8, 3);
    assert_eq!(Piece::WQ as u8, 4);
    assert_eq!(Piece::WK as u8, 5);
    assert_eq!(Piece::BP as u8, 6);
    assert_eq!(Piece::BN as u8, 7);
    assert_eq!(Piece::BB as u8, 8);
    assert_eq!(Piece::BR as u8, 9);
    assert_eq!(Piece::BQ as u8, 10);
    assert_eq!(Piece::BK as u8, 11);
}
