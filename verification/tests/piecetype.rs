use chesscore::consts::PieceType;

#[test]
fn piecetype_new() {
    assert_eq!(PieceType::new(0), Some(PieceType::Pawn));
    assert_eq!(PieceType::new(1), Some(PieceType::Knight));
    assert_eq!(PieceType::new(2), Some(PieceType::Bishop));
    assert_eq!(PieceType::new(3), Some(PieceType::Rook));
    assert_eq!(PieceType::new(4), Some(PieceType::Queen));
    assert_eq!(PieceType::new(5), Some(PieceType::King));
    assert_eq!(PieceType::new(6), None);
}

#[test]
fn from_index_unchecked() {}

#[test]
fn piecetype_inner() {
    assert_eq!(PieceType::Pawn.inner(), 0);
    assert_eq!(PieceType::Knight.inner(), 1);
    assert_eq!(PieceType::Bishop.inner(), 2);
    assert_eq!(PieceType::Rook.inner(), 3);
    assert_eq!(PieceType::Queen.inner(), 4);
    assert_eq!(PieceType::King.inner(), 5);
}

#[test]
fn legal_promo() {
    assert!(PieceType::Queen.legal_promo());
    assert!(PieceType::Knight.legal_promo());
    assert!(PieceType::Bishop.legal_promo());
    assert!(PieceType::Rook.legal_promo());
    assert!(!PieceType::Pawn.legal_promo());
    assert!(!PieceType::King.legal_promo());
}

#[test]
fn promo_char() {
    assert_eq!(PieceType::Queen.promo_char(), Some('q'));
    assert_eq!(PieceType::Knight.promo_char(), Some('n'));
    assert_eq!(PieceType::Bishop.promo_char(), Some('b'));
    assert_eq!(PieceType::Rook.promo_char(), Some('r'));
    assert_eq!(PieceType::Pawn.promo_char(), None);
    assert_eq!(PieceType::King.promo_char(), None);
}

#[test]
fn piecetype_all() {
    let all = PieceType::all();
    let mut iter = all.iter();
    assert_eq!(iter.next(), Some(&PieceType::Pawn));
    assert_eq!(iter.next(), Some(&PieceType::Knight));
    assert_eq!(iter.next(), Some(&PieceType::Bishop));
    assert_eq!(iter.next(), Some(&PieceType::Rook));
    assert_eq!(iter.next(), Some(&PieceType::Queen));
    assert_eq!(iter.next(), Some(&PieceType::King));
    assert_eq!(iter.next(), None);
}

#[test]
fn piecetype_index() {
    assert_eq!(PieceType::Pawn.index(), 0);
    assert_eq!(PieceType::Knight.index(), 1);
    assert_eq!(PieceType::Bishop.index(), 2);
    assert_eq!(PieceType::Rook.index(), 3);
    assert_eq!(PieceType::Queen.index(), 4);
    assert_eq!(PieceType::King.index(), 5);
}

#[test]
fn from_symbol() {
    assert_eq!(PieceType::from_symbol(b'P'), Some(PieceType::Pawn));
    assert_eq!(PieceType::from_symbol(b'N'), Some(PieceType::Knight));
    assert_eq!(PieceType::from_symbol(b'B'), Some(PieceType::Bishop));
    assert_eq!(PieceType::from_symbol(b'R'), Some(PieceType::Rook));
    assert_eq!(PieceType::from_symbol(b'Q'), Some(PieceType::Queen));
    assert_eq!(PieceType::from_symbol(b'K'), Some(PieceType::King));
    assert_eq!(PieceType::from_symbol(b'.'), None);
}

#[test]
fn piecetype_display() {
    assert_eq!(PieceType::Pawn.name(), "Pawn");
    assert_eq!(PieceType::Knight.name(), "Knight");
    assert_eq!(PieceType::Bishop.name(), "Bishop");
    assert_eq!(PieceType::Rook.name(), "Rook");
    assert_eq!(PieceType::Queen.name(), "Queen");
    assert_eq!(PieceType::King.name(), "King");
}
