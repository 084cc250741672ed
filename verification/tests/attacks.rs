use chesscore::attacks;
use chesscore::consts::Col;
use chesscore::consts::Piece;
use chesscore::consts::PieceType;
use chesscore::consts::Square;

#[test]
fn pawn_attacks() {
    assert_eq!(attacks::pawn_attacks(Col::White, Square::A2), 131072);
    assert_eq!(attacks::pawn_attacks(Col::White, Square::B2), 327680);
    assert_eq!(attacks::pawn_attacks(Col::Black, Square::A7), 2199023255552);
    assert_eq!(attacks::pawn_attacks(Col::Black, Square::B7), 5497558138880);
}

#[test]
fn knight_attacks() {
    assert_eq!(attacks::knight_attacks(Square::A1), 132096);
    assert_eq!(attacks::knight_attacks(Square::D1), 1319424);
    assert_eq!(attacks::knight_attacks(Square::E1), 2638848);
    assert_eq!(attacks::knight_attacks(Square::H1), 4202496);
}

#[test]
fn king_attacks() {
    assert_eq!(attacks::king_attacks(Square::A1), 770);
    assert_eq!(attacks::king_attacks(Square::D1), 7188);
    assert_eq!(attacks::king_attacks(Square::E1), 14376);
    assert_eq!(attacks::king_attacks(Square::H1), 49216);
}

#[test]
fn rook_attacks() {
    let occupied = 0;
    assert_eq!(attacks::rook_attacks(Square::A1, occupied), 72340172838076926);
    assert_eq!(attacks::rook_attacks(Square::A1, 4), 72340172838076678);
    assert_eq!(attacks::rook_attacks(Square::A1, 65540), 65798);
    assert_eq!(attacks::rook_attacks(Square::A1, 258), 258);
}

#[test]
fn bishop_attacks() {
    let occupied = 0;
    assert_eq!(attacks::bishop_attacks(Square::D1, occupied), 550848566272);
    assert_eq!(attacks::bishop_attacks(Square::D1, 131072), 550831789056);
    assert_eq!(attacks::bishop_attacks(Square::D1, 2228224), 2233344);
    assert_eq!(attacks::bishop_attacks(Square::D1, 5120), 5120);
}

#[test]
fn queen_attacks() {
    let occupied = 0;
    assert_eq!(attacks::queen_attacks(Square::A1, occupied), 9313761861428380670);
    assert_eq!(attacks::queen_attacks(Square::A1, 65536), 9241421688590369790);
    assert_eq!(attacks::queen_attacks(Square::A1, 327680), 328702);
    assert_eq!(attacks::queen_attacks(Square::A1, 327684), 328454);
    assert_eq!(attacks::queen_attacks(Square::A1, 770), 770);
}

#[test]
fn attacks() {
    let occupied = 0;
    assert_eq!(attacks::attacks(Square::A1, Piece::new(Col::White, PieceType::Pawn), occupied), 512);
    assert_eq!(
        attacks::attacks(Square::A1, Piece::new(Col::White, PieceType::Knight), occupied),
        132096
    );
    assert_eq!(attacks::attacks(Square::A1, Piece::new(Col::White, PieceType::King), occupied), 770);
    assert_eq!(
        attacks::attacks(Square::A1, Piece::new(Col::White, PieceType::Rook), occupied),
        72340172838076926
    );
    assert_eq!(
        attacks::attacks(Square::A1, Piece::new(Col::White, PieceType::Bishop), occupied),
        9241421688590303744
    );
    assert_eq!(
        attacks::attacks(Square::A1, Piece::new(Col::White, PieceType::Queen), occupied),
        9313761861428380670
    );
}

#[test]
fn queen_is_rook_xor_bishop() {
    let occs: [u64; 4] = [0, !0, 0xffff_0000_0000_ffff, 0x0055_aa00_12f0_8421];
    let squares = Square::all();
    for sq in squares.iter() {
        for occ in occs.iter() {
            let r = attacks::rook_attacks(*sq, *occ);
            let b = attacks::bishop_attacks(*sq, *occ);
            let q = attacks::queen_attacks(*sq, *occ);
            assert_eq!(r & b, 0);
            assert_eq!(q, r ^ b);
            assert_eq!(q, r | b);
        }
    }
}
