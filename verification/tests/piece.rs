use chesscore::consts::Col;
use chesscore::consts::Piece;
use chesscore::consts::PieceType;

#[test]
fn piece_new() {
    assert_eq!(Piece::new(Col::White, PieceType::Pawn), Piece::WP);
    assert_eq!(Piece::new(Col::Black, PieceType::Pawn), Piece::BP);
    assert_eq!(Piece::new(Col::White, PieceType::Knight), Piece::WN);
    assert_eq!(Piece::new(Col::Black, PieceType::Knight), Piece::BN);
    assert_eq!(Piece::new(Col::White, PieceType::Bishop), Piece::WB);
    assert_eq!(Piece::new(Col::Black, PieceType::Bishop), Piece::BB);
    assert_eq!(Piece::new(Col::White, PieceType::Rook), Piece::WR);
    assert_eq!(Piece::new(Col::Black, PieceType::Rook), Piece::BR);
    assert_eq!(Piece::new(Col::White, PieceType::Queen), Piece::WQ);
    assert_eq!(Piece::new(Col::Black, PieceType::Queen), Piece::BQ);
    assert_eq!(Piece::new(Col::White, PieceType::King), Piece::WK);
    assert_eq!(Piece::new(Col::Black, PieceType::King), Piece::BK);
}

#[test]
fn piece_from_index() {
    assert_eq!(Piece::from_index(0), Some(Piece::WP));
    assert_eq!(Piece::from_index(1), Some(Piece::WN));
    assert_eq!(Piece::from_index(2), Some(Piece::WB));
    assert_eq!(Piece::from_index(3), Some(Piece::WR));
    assert_eq!(Piece::from_index(4), Some(Piece::WQ));
    assert_eq!(Piece::from_index(5), Some(Piece::WK));
    assert_eq!(Piece::from_index(6), Some(Piece::BP));
    assert_eq!(Piece::from_index(7), Some(Piece::BN));
    assert_eq!(Piece::from_index(8), Some(Piece::BB));
    assert_eq!(Piece::from_index(9), Some(Piece::BR));
    assert_eq!(Piece::from_index(10), Some(Piece::BQ));
    assert_eq!(Piece::from_index(11), Some(Piece::BK));
    assert_eq!(Piece::from_index(12), None);
}

#[test]
fn colour() {
    assert_eq!(Piece::WP.colour(), Col::White);
    assert_eq!(Piece::BP.colour(), Col::Black);
    assert_eq!(Piece::WN.colour(), Col::White);
    assert_eq!(Piece::BN.colour(), Col::Black);
    assert_eq!(Piece::WB.colour(), Col::White);
    assert_eq!(Piece::BB.colour(), Col::Black);
    assert_eq!(Piece::WR.colour(), Col::White);
    assert_eq!(Piece::BR.colour(), Col::Black);
    assert_eq!(Piece::WQ.colour(), Col::White);
    assert_eq!(Piece::BQ.colour(), Col::Black);
    assert_eq!(Piece::WK.colour(), Col::White);
    assert_eq!(Piece::BK.colour(), Col::Black);
}

#[test]
fn piecetype() {
    assert_eq!(Piece::WP.piecetype(), PieceType::Pawn);
    assert_eq!(Piece::BP.piecetype(), PieceType::Pawn);
    assert_eq!(Piece::WN.piecetype(), PieceType::Knight);
    assert_eq!(Piece::BN.piecetype(), PieceType::Knight);
    assert_eq!(Piece::WB.piecetype(), PieceType::Bishop);
    assert_eq!(Piece::BB.piecetype(), PieceType::Bishop);
    assert_eq!(Piece::WR.piecetype(), PieceType::Rook);
    assert_eq!(Piece::BR.piecetype(), PieceType::Rook);
    assert_eq!(Piece::WQ.piecetype(), PieceType::Queen);
    assert_eq!(Piece::BQ.piecetype(), PieceType::Queen);
    assert_eq!(Piece::WK.piecetype(), PieceType::King);
    assert_eq!(Piece::BK.piecetype(), PieceType::King);
}

#[test]
fn from_piecetype_and_col() {
    assert_eq!(Piece::from_piecetype_and_col(PieceType::Pawn, Col::White), Piece::WP);
    assert_eq!(Piece::from_piecetype_and_col(PieceType::Pawn, Col::Black), Piece::BP);
    assert_eq!(Piece::from_piecetype_and_col(PieceType::Knight, Col::White), Piece::WN);
    assert_eq!(Piece::from_piecetype_and_col(PieceType::Knight, Col::Black), Piece::BN);
    assert_eq!(Piece::from_piecetype_and_col(PieceType::Bishop, Col::White), Piece::WB);
    assert_eq!(Piece::from_piecetype_and_col(PieceType::Bishop, Col::Black), Piece::BB);
    assert_eq!(Piece::from_piecetype_and_col(PieceType::Rook, Col::White), Piece::WR);
    assert_eq!(Piece::from_piecetype_and_col(PieceType::Rook, Col::Black), Piece::BR);
    assert_eq!(Piece::from_piecetype_and_col(PieceType::Queen, Col::White), Piece::WQ);
    assert_eq!(Piece::from_piecetype_and_col(PieceType::Queen, Col::Black), Piece::BQ);
    assert_eq!(Piece::from_piecetype_and_col(PieceType::King, Col::White), Piece::WK);
    assert_eq!(Piece::from_piecetype_and_col(PieceType::King, Col::Black), Piece::BK);
}

#[test]
fn char() {
    assert_eq!(Piece::WP.char(), 'P');
    assert_eq!(Piece::BP.char(), 'p');
    assert_eq!(Piece::WN.char(), 'N');
    assert_eq!(Piece::BN.char(), 'n');
    assert_eq!(Piece::WB.char(), 'B');
    assert_eq!(Piece::BB.char(), 'b');
    assert_eq!(Piece::WR.char(), 'R');
    assert_eq!(Piece::BR.char(), 'r');
    assert_eq!(Piece::WQ.char(), 'Q');
    assert_eq!(Piece::BQ.char(), 'q');
    assert_eq!(Piece::WK.char(), 'K');
    assert_eq!(Piece::BK.char(), 'k');
}

#[test]
fn byte_char() {
    assert_eq!(Piece::WP.byte_char(), b'P');
    assert_eq!(Piece::BP.byte_char(), b'p');
    assert_eq!(Piece::WN.byte_char(), b'N');
    assert_eq!(Piece::BN.byte_char(), b'n');
    assert_eq!(Piece::WB.byte_char(), b'B');
    assert_eq!(Piece::BB.byte_char(), b'b');
    assert_eq!(Piece::WR.byte_char(), b'R');
    assert_eq!(Piece::BR.byte_char(), b'r');
    assert_eq!(Piece::WQ.byte_char(), b'Q');
    assert_eq!(Piece::BQ.byte_char(), b'q');
    assert_eq!(Piece::WK.byte_char(), b'K');
    assert_eq!(Piece::BK.byte_char(), b'k');
}

#[test]
fn piece_all() {
    let all = Piece::all();
    let mut iter = all.iter();
    assert_eq!(iter.next(), Some(&Piece::WP));
    assert_eq!(iter.next(), Some(&Piece::WN));
    assert_eq!(iter.next(), Some(&Piece::WB));
    assert_eq!(iter.next(), Some(&Piece::WR));
    assert_eq!(iter.next(), Some(&Piece::WQ));
    assert_eq!(iter.next(), Some(&Piece::WK));
    assert_eq!(iter.next(), Some(&Piece::BP));
    assert_eq!(iter.next(), Some(&Piece::BN));
    assert_eq!(iter.next(), Some(&Piece::BB));
    assert_eq!(iter.next(), Some(&Piece::BR));
    assert_eq!(iter.next(), Some(&Piece::BQ));
    assert_eq!(iter.next(), Some(&Piece::BK));
    assert_eq!(iter.next(), None);
}

#[test]
fn piece_inner() {
    assert_eq!(Piece::WP.inner(), 0);
    assert_eq!(Piece::WN.inner(), 1);
    assert_eq!(Piece::WB.inner(), 2);
    assert_eq!(Piece::WR.inner(), 3);
    assert_eq!(Piece::WQ.inner(), 4);
    assert_eq!(Piece::WK.inner(), 5);
    assert_eq!(Piece::BP.inner(), 6);
    assert_eq!(Piece::BN.inner(), 7);
    assert_eq!(Piece::BB.inner(), 8);
    assert_eq!(Piece::BR.inner(), 9);
    assert_eq!(Piece::BQ.inner(), 10);
    assert_eq!(Piece::BK.inner(), 11);
}

#[test]
fn piece_display() {
    assert_eq!(format!("{}", Piece::WP.char()), "P");
    assert_eq!(format!("{}", Piece::BP.char()), "p");
    assert_eq!(format!("{}", Piece::WN.char()), "N");
    assert_eq!(format!("{}", Piece::BN.char()), "n");
    assert_eq!(format!("{}", Piece::WB.char()), "B");
    assert_eq!(format!("{}", Piece::BB.char()), "b");
    assert_eq!(format!("{}", Piece::WR.char()), "R");
    assert_eq!(format!("{}", Piece::BR.char()), "r");
    assert_eq!(format!("{}", Piece::WQ.char()), "Q");
    assert_eq!(format!("{}", Piece::BQ.char()), "q");
    assert_eq!(format!("{}", Piece::WK.char()), "K");
    assert_eq!(format!("{}", Piece::BK.char()), "k");
}
