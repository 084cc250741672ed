use chesscore::attacks;
use chesscore::bitboard;
use chesscore::consts::Board;
use chesscore::consts::Col;
use chesscore::consts::Piece;
use chesscore::consts::PieceType;
use chesscore::consts::Square;
use chesscore::consts::BB_EMPTY;
use chesscore::consts::BB_FULL;
use chesscore::consts::BB_RANK_1;

#[test]
fn board_new() {
    let board = Board::new();
    assert_eq!(board.by_piece[PieceType::Pawn.index()], 0x00ff_0000_0000_ff00);
    assert_eq!(board.by_col[Col::White.index()], 0xffff);
    assert_eq!(board.occupied, 0xffff_0000_0000_ffff);
}

#[test]
fn board_empty() {
    let board = Board::empty();
    assert_eq!(board.by_piece, [BB_EMPTY; 6]);
    assert_eq!(board.by_col, [BB_EMPTY; 2]);
    assert_eq!(board.occupied, BB_EMPTY);
}

#[test]
fn try_from_bitboards() {
    let mut by_piece = [
        0x00ff_0000_0000_ff00,
        0x4200_0000_0000_0042,
        0x2400_0000_0000_0024,
        0x8100_0000_0000_0081,
        0x0800_0000_0000_0008,
        0x1000_0000_0000_0010,
    ];
    let mut by_col = [BB_EMPTY, BB_EMPTY];
    let mut board = Board::try_from_bitboards(by_piece, by_col);
    let err = board.unwrap_err();
    assert_eq!(err, "roles and colours are mismatched");
    by_col = [BB_FULL, BB_RANK_1];
    board = Board::try_from_bitboards(by_piece, by_col);
    let err = board.unwrap_err();
    assert_eq!(err, "colours overlap");
    by_piece[PieceType::Pawn.index()] = BB_FULL;
    board = Board::try_from_bitboards(by_piece, by_col);
    let err = board.unwrap_err();
    assert_eq!(err, "roles overlap");
    let nbd = Board::new();
    by_col = nbd.by_col;
    by_piece = nbd.by_piece;
    board = Board::try_from_bitboards(by_piece, by_col);
    assert!(board.is_ok());
}

#[test]
fn into_bitboards() {
    let nbd = Board::new();
    let (by_piece, by_col) = nbd.clone().into_bitboards();
    assert_eq!(by_piece[PieceType::Pawn.index()], 0x00ff_0000_0000_ff00);
    assert_eq!(by_col[Col::White.index()], 0xffff);
    assert_eq!(nbd.occupied, 0xffff_0000_0000_ffff);
}

#[test]
fn occupied() {
    let nbd = Board::new();
    assert_eq!(nbd.occupied(), 0xffff_0000_0000_ffff);
}

#[test]
fn pawns() {
    let nbd = Board::new();
    assert_eq!(nbd.pawns(), 0x00ff_0000_0000_ff00);
}

#[test]
fn knights() {
    let nbd = Board::new();
    assert_eq!(nbd.knights(), 0x4200_0000_0000_0042);
}

#[test]
fn bishops() {
    let nbd = Board::new();
    assert_eq!(nbd.bishops(), 0x2400_0000_0000_0024);
}

#[test]
fn rooks() {
    let nbd = Board::new();
    assert_eq!(nbd.rooks(), 0x8100_0000_0000_0081);
}

#[test]
fn queens() {
    let nbd = Board::new();
    assert_eq!(nbd.queens(), 0x0800_0000_0000_0008);
}

#[test]
fn kings() {
    let nbd = Board::new();
    assert_eq!(nbd.kings(), 0x1000_0000_0000_0010);
}

#[test]
fn white() {
    let nbd = Board::new();
    assert_eq!(nbd.white(), 0xffff);
}

#[test]
fn black() {
    let nbd = Board::new();
    assert_eq!(nbd.black(), 0xffff_0000_0000_0000);
}

#[test]
fn sliders() {
    let nbd = Board::new();
    assert_eq!(nbd.sliders(), 0x8100_0000_0000_0081 ^ 0x2400_0000_0000_0024 ^ 0x0800_0000_0000_0008);
}

#[test]
fn steppers() {
    let nbd = Board::new();
    assert_eq!(
        nbd.steppers(),
        0x4200_0000_0000_0042 ^ 0x00ff_0000_0000_ff00 ^ 0x1000_0000_0000_0010
    );
}

#[test]
fn rooks_and_queens() {
    let nbd = Board::new();
    assert_eq!(nbd.rooks_and_queens(), 0x8100_0000_0000_0081 ^ 0x0800_0000_0000_0008);
}

#[test]
fn bishops_and_queens() {
    let nbd = Board::new();
    assert_eq!(nbd.bishops_and_queens(), 0x2400_0000_0000_0024 ^ 0x0800_0000_0000_0008);
}

#[test]
fn king_of() {
    let nbd = Board::new();
    assert_eq!(nbd.king_of(Col::White), Square::E1);
    assert_eq!(nbd.king_of(Col::Black), Square::E8);
}

#[test]
fn col_at() {
    let nbd = Board::new();
    assert_eq!(nbd.col_at(Square::A1), Some(Col::White));
    assert_eq!(nbd.col_at(Square::E8), Some(Col::Black));
    assert_eq!(nbd.col_at(Square::D4), None);
}

#[test]
fn piecetype_at() {
    let nbd = Board::new();
    assert_eq!(nbd.piecetype_at(Square::A1), Some(PieceType::Rook));
    assert_eq!(nbd.piecetype_at(Square::E8), Some(PieceType::King));
    assert_eq!(nbd.piecetype_at(Square::D2), Some(PieceType::Pawn));
    assert_eq!(nbd.piecetype_at(Square::H8), Some(PieceType::Rook));
    assert_eq!(nbd.piecetype_at(Square::A5), None);
}

#[test]
fn piece_at() {
    let nbd = Board::new();
    assert_eq!(nbd.piece_at(Square::A1), Some(Piece::WR));
    assert_eq!(nbd.piece_at(Square::E8), Some(Piece::BK));
    assert_eq!(nbd.piece_at(Square::D2), Some(Piece::WP));
    assert_eq!(nbd.piece_at(Square::H8), Some(Piece::BR));
    assert_eq!(nbd.piece_at(Square::A5), None);
}

#[test]
fn remove_piece_at() {
    let mut nbd = Board::new();
    let piece = nbd.remove_piece_at(Square::A1);
    assert_eq!(piece, Some(Piece::WR));
    assert_eq!(nbd.piece_at(Square::A1), None);
    assert_eq!(
        nbd.by_piece[PieceType::Rook.index()] & bitboard::from_square(Square::A1),
        BB_EMPTY
    );
    assert_eq!(nbd.by_col[Col::White.index()] & bitboard::from_square(Square::A1), BB_EMPTY);
    assert_eq!(nbd.occupied & bitboard::from_square(Square::A1), BB_EMPTY);
}

#[test]
fn discard_piece_at() {
    let mut nbd = Board::new();
    nbd.discard_piece_at(Square::A1);
    assert_eq!(nbd.piece_at(Square::A1), None);
    assert_eq!(
        nbd.by_piece[PieceType::Rook.index()] & bitboard::from_square(Square::A1),
        BB_EMPTY
    );
    assert_eq!(nbd.by_col[Col::White.index()] & bitboard::from_square(Square::A1), BB_EMPTY);
    assert_eq!(nbd.occupied & bitboard::from_square(Square::A1), BB_EMPTY);
}

#[test]
fn set_piece_at() {
    let mut nbd = Board::empty();
    nbd.set_piece_at(Square::A1, Piece::WR);
    assert_eq!(nbd.piece_at(Square::A1), Some(Piece::WR));
    assert_eq!(
        nbd.by_piece[PieceType::Rook.index()] & bitboard::from_square(Square::A1),
        bitboard::from_square(Square::A1)
    );
    assert_eq!(
        nbd.by_col[Col::White.index()] & bitboard::from_square(Square::A1),
        bitboard::from_square(Square::A1)
    );
    assert_eq!(
        nbd.occupied & bitboard::from_square(Square::A1),
        bitboard::from_square(Square::A1)
    );
}

#[test]
fn set_new_piece_at() {
    let mut nbd = Board::empty();
    nbd.set_new_piece_at(Square::A1, Piece::WR);
    assert_eq!(nbd.piece_at(Square::A1), Some(Piece::WR));
    assert_eq!(
        nbd.by_piece[PieceType::Rook.index()] & bitboard::from_square(Square::A1),
        bitboard::from_square(Square::A1)
    );
    assert_eq!(
        nbd.by_col[Col::White.index()] & bitboard::from_square(Square::A1),
        bitboard::from_square(Square::A1)
    );
    assert_eq!(
        nbd.occupied & bitboard::from_square(Square::A1),
        bitboard::from_square(Square::A1)
    );
}

#[test]
fn by_col() {
    let nbd = Board::new();
    assert_eq!(nbd.by_col(Col::White), 0xffff);
    assert_eq!(nbd.by_col(Col::Black), 0xffff_0000_0000_0000);
}

#[test]
fn by_piecetype() {
    let nbd = Board::new();
    assert_eq!(nbd.by_piecetype(PieceType::Pawn), 0x00ff_0000_0000_ff00);
    assert_eq!(nbd.by_piecetype(PieceType::Knight), 0x4200_0000_0000_0042);
    assert_eq!(nbd.by_piecetype(PieceType::Bishop), 0x2400_0000_0000_0024);
    assert_eq!(nbd.by_piecetype(PieceType::Rook), 0x8100_0000_0000_0081);
    assert_eq!(nbd.by_piecetype(PieceType::Queen), 0x0800_0000_0000_0008);
    assert_eq!(nbd.by_piecetype(PieceType::King), 0x1000_0000_0000_0010);
}

#[test]
fn by_piece() {
    let nbd = Board::new();
    assert_eq!(nbd.by_piece(Piece::WP), 0x00ff_0000_0000_ff00 & 0xffff);
    assert_eq!(nbd.by_piece(Piece::WN), 0x4200_0000_0000_0042 & 0xffff);
    assert_eq!(nbd.by_piece(Piece::WB), 0x2400_0000_0000_0024 & 0xffff);
    assert_eq!(nbd.by_piece(Piece::WR), 0x8100_0000_0000_0081 & 0xffff);
    assert_eq!(nbd.by_piece(Piece::WQ), 0x0800_0000_0000_0008 & 0xffff);
    assert_eq!(nbd.by_piece(Piece::WK), 0x1000_0000_0000_0010 & 0xffff);
}

#[test]
fn attacks_from() {
    let nbd = Board::new();
    assert_eq!(nbd.attacks_from(Square::A1), attacks::attacks(Square::A1, Piece::WR, nbd.occupied));
    assert_eq!(nbd.attacks_from(Square::E8), attacks::attacks(Square::E8, Piece::BK, nbd.occupied));
    assert_eq!(nbd.attacks_from(Square::D2), attacks::attacks(Square::D2, Piece::WP, nbd.occupied));
    assert_eq!(nbd.attacks_from(Square::H8), attacks::attacks(Square::H8, Piece::BR, nbd.occupied));
    assert_eq!(nbd.attacks_from(Square::A5), BB_EMPTY);
}

#[test]
fn atacks_to() {
    let nbd = Board::new();
    assert_eq!(nbd.atacks_to(Square::A1, Col::White, nbd.occupied), 0);
    assert_eq!(nbd.atacks_to(Square::E2, Col::White, nbd.occupied), 120);
    assert_eq!(nbd.atacks_to(Square::B8, Col::Black, nbd.occupied), 72057594037927936);
    assert_eq!(nbd.atacks_to(Square::F6, Col::Black, nbd.occupied), 4634204016564240384);
}

#[test]
fn starting_board_invariants() {
    let nbd = Board::new();
    for j in 0..6 {
        for k in (j + 1)..6 {
            assert_eq!(nbd.by_piece[j] & nbd.by_piece[k], 0);
        }
    }
    assert_eq!(nbd.by_col[0] & nbd.by_col[1], 0);
    let piece_union = nbd.by_piece.iter().fold(0u64, |a, b| a | b);
    let col_union = nbd.by_col[0] | nbd.by_col[1];
    assert_eq!(nbd.occupied, piece_union);
    assert_eq!(nbd.occupied, col_union);
}

#[test]
fn set_then_remove_round_trip() {
    let mut nbd = Board::new();
    nbd.set_piece_at(Square::D5, Piece::BQ);
    assert_eq!(nbd.piece_at(Square::D5), Some(Piece::BQ));
    nbd.set_piece_at(Square::D5, Piece::WN);
    assert_eq!(nbd.piece_at(Square::D5), Some(Piece::WN));
    assert_eq!(nbd.remove_piece_at(Square::D5), Some(Piece::WN));
    assert_eq!(nbd.piece_at(Square::D5), None);
    assert_eq!(nbd.remove_piece_at(Square::D5), None);
    assert_eq!(nbd.piece_at(Square::E1), Some(Piece::WK));
}
