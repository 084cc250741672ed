use chesscore::attacks;
use chesscore::consts::Square;
use chesscore::magic;

#[test]
fn bootstrap_magics() {
    let tables = magic::bootstrap_magics().unwrap();
    assert_eq!(tables.rook_attacks(Square::A1, 0), 72340172838076926);
    assert_eq!(tables.rook_attacks(Square::A1, 4), 72340172838076678);
    assert_eq!(tables.rook_attacks(Square::A1, 65540), 65798);
    assert_eq!(tables.rook_attacks(Square::A1, 258), 258);
    assert_eq!(tables.bishop_attacks(Square::D1, 0), 550848566272);
    assert_eq!(tables.bishop_attacks(Square::D1, 131072), 550831789056);
    assert_eq!(tables.queen_attacks(Square::A1, 0), 9313761861428380670);
    assert_eq!(tables.queen_attacks(Square::A1, 65536), 9241421688590369790);
}

#[test]
fn magic_tables_match_ray_walks() {
    let tables = magic::bootstrap_magics().unwrap();
    let occs: [u64; 5] = [0, !0, 0xffff_0000_0000_ffff, 0x0055_aa00_12f0_8421, 0x8100_0420_0018_0081];
    let squares = Square::all();
    for sq in squares.iter() {
        for occ in occs.iter() {
            assert_eq!(tables.rook_attacks(*sq, *occ), attacks::rook_attacks(*sq, *occ));
            assert_eq!(tables.bishop_attacks(*sq, *occ), attacks::bishop_attacks(*sq, *occ));
            assert_eq!(tables.queen_attacks(*sq, *occ), attacks::queen_attacks(*sq, *occ));
        }
    }
}
