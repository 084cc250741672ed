//! Coloured pieces: the `Colour` x `PieceType` product, densely indexed as
//! `colour * 6 + piecetype`, with symbol conversions.

use vstd::prelude::*;

use crate::consts::Col;
use crate::consts::Piece;
use crate::consts::PieceType;

verus! {


/// The piece of colour `c` and kind `t`.
pub open spec fn piece_of(c: Col, t: PieceType) -> Piece {
    match (c, t) {
        (Col::White, PieceType::Pawn) => Piece::WP,
        (Col::White, PieceType::Knight) => Piece::WN,
        (Col::White, PieceType::Bishop) => Piece::WB,
        (Col::White, PieceType::Rook) => Piece::WR,
        (Col::White, PieceType::Queen) => Piece::WQ,
        (Col::White, PieceType::King) => Piece::WK,
        (Col::Black, PieceType::Pawn) => Piece::BP,
        (Col::Black, PieceType::Knight) => Piece::BN,
        (Col::Black, PieceType::Bishop) => Piece::BB,
        (Col::Black, PieceType::Rook) => Piece::BR,
        (Col::Black, PieceType::Queen) => Piece::BQ,
        (Col::Black, PieceType::King) => Piece::BK,
    }
}

impl Piece {
    /// The dense index of this piece: `colour * 6 + piecetype`.
    pub open spec fn idx(self) -> int {
        match self {
            Piece::WP => 0,
            Piece::WN => 1,
            Piece::WB => 2,
            Piece::WR => 3,
            Piece::WQ => 4,
            Piece::WK => 5,
            Piece::BP => 6,
            Piece::BN => 7,
            Piece::BB => 8,
            Piece::BR => 9,
            Piece::BQ => 10,
            Piece::BK => 11,
        }
    }

    /// The colour of this piece.
    pub open spec fn colour_spec(self) -> Col {
        if self.idx() < 6 {
            Col::White
        } else {
            Col::Black
        }
    }

    /// The kind of this piece.
    pub open spec fn type_spec(self) -> PieceType {
        match self {
            Piece::WP | Piece::BP => PieceType::Pawn,
            Piece::WN | Piece::BN => PieceType::Knight,
            Piece::WB | Piece::BB => PieceType::Bishop,
            Piece::WR | Piece::BR => PieceType::Rook,
            Piece::WQ | Piece::BQ => PieceType::Queen,
            Piece::WK | Piece::BK => PieceType::King,
        }
    }

    /// The upper- or lower-case letter of this piece: upper case for
    /// white, lower case for black.
    pub open spec fn symbol(self) -> char {
        match self {
            Piece::WP => 'P',
            Piece::WN => 'N',
            Piece::WB => 'B',
            Piece::WR => 'R',
            Piece::WQ => 'Q',
            Piece::WK => 'K',
            Piece::BP => 'p',
            Piece::BN => 'n',
            Piece::BB => 'b',
            Piece::BR => 'r',
            Piece::BQ => 'q',
            Piece::BK => 'k',
        }
    }

    /// The piece of the given colour and kind.
    pub fn new(colour: Col, piece_type: PieceType) -> (r: Piece)
        ensures
            r == piece_of(colour, piece_type),
            r.colour_spec() == colour,
            r.type_spec() == piece_type,
            r.idx() == colour.idx() * 6 + piece_type.idx(),
    {
        match (colour, piece_type) {
            (Col::White, PieceType::Pawn) => Piece::WP,
            (Col::White, PieceType::Knight) => Piece::WN,
            (Col::White, PieceType::Bishop) => Piece::WB,
            (Col::White, PieceType::Rook) => Piece::WR,
            (Col::White, PieceType::Queen) => Piece::WQ,
            (Col::White, PieceType::King) => Piece::WK,
            (Col::Black, PieceType::Pawn) => Piece::BP,
            (Col::Black, PieceType::Knight) => Piece::BN,
            (Col::Black, PieceType::Bishop) => Piece::BB,
            (Col::Black, PieceType::Rook) => Piece::BR,
            (Col::Black, PieceType::Queen) => Piece::BQ,
            (Col::Black, PieceType::King) => Piece::BK,
        }
    }

    /// The piece of index `v`, or `None` when `v` is out of range.
    pub fn from_index(v: u8) -> (r: Option<Piece>)
        ensures
            r is Some <==> v < 12,
            v < 12 ==> r->Some_0.idx() == v as int,
    {
        match v {
            0 => Some(Piece::WP),
            1 => Some(Piece::WN),
            2 => Some(Piece::WB),
            3 => Some(Piece::WR),
            4 => Some(Piece::WQ),
            5 => Some(Piece::WK),
            6 => Some(Piece::BP),
            7 => Some(Piece::BN),
            8 => Some(Piece::BB),
            9 => Some(Piece::BR),
            10 => Some(Piece::BQ),
            11 => Some(Piece::BK),
            _ => None,
        }
    }

    /// The colour of this piece.
    pub fn colour(self) -> (r: Col)
        ensures
            r == self.colour_spec(),
    {
        if self.inner() < 6 {
            Col::White
        } else {
            Col::Black
        }
    }

    /// The kind of this piece.
    pub fn piecetype(self) -> (r: PieceType)
        ensures
            r == self.type_spec(),
    {
        match self {
            Piece::WP | Piece::BP => PieceType::Pawn,
            Piece::WN | Piece::BN => PieceType::Knight,
            Piece::WB | Piece::BB => PieceType::Bishop,
            Piece::WR | Piece::BR => PieceType::Rook,
            Piece::WQ | Piece::BQ => PieceType::Queen,
            Piece::WK | Piece::BK => PieceType::King,
        }
    }

    /// The piece of the given kind and colour.
    pub fn from_piecetype_and_col(piecetype: PieceType, colour: Col) -> (r: Piece)
        ensures
            r == piece_of(colour, piecetype),
            r.colour_spec() == colour,
            r.type_spec() == piecetype,
            r.idx() == colour.idx() * 6 + piecetype.idx(),
    {
        Piece::new(colour, piecetype)
    }

    /// The letter of this piece: upper case for white, lower case for
    /// black.
    pub fn char(self) -> (r: char)
        ensures
            r == self.symbol(),
    {
        match self {
            Piece::WP => 'P',
            Piece::WN => 'N',
            Piece::WB => 'B',
            Piece::WR => 'R',
            Piece::WQ => 'Q',
            Piece::WK => 'K',
            Piece::BP => 'p',
            Piece::BN => 'n',
            Piece::BB => 'b',
            Piece::BR => 'r',
            Piece::BQ => 'q',
            Piece::BK => 'k',
        }
    }

    /// The letter of this piece as an ASCII byte.
    pub fn byte_char(self) -> (r: u8)
        ensures
            r == self.symbol() as u8,
    {
        // ASCII: "PNBRQK" is 80 78 66 82 81 75, "pnbrqk" is 112 110 98 114 113 107.
        match self {
            Piece::WP => 80,
            Piece::WN => 78,
            Piece::WB => 66,
            Piece::WR => 82,
            Piece::WQ => 81,
            Piece::WK => 75,
            Piece::BP => 112,
            Piece::BN => 110,
            Piece::BB => 98,
            Piece::BR => 114,
            Piece::BQ => 113,
            Piece::BK => 107,
        }
    }

    /// All twelve pieces, in index order.
    pub fn all() -> (r: Vec<Piece>)
        ensures
            r@ =~= seq![
                Piece::WP,
                Piece::WN,
                Piece::WB,
                Piece::WR,
                Piece::WQ,
                Piece::WK,
                Piece::BP,
                Piece::BN,
                Piece::BB,
                Piece::BR,
                Piece::BQ,
                Piece::BK,
            ],
    {
        let mut v: Vec<Piece> = Vec::new();
        v.push(Piece::WP);
        v.push(Piece::WN);
        v.push(Piece::WB);
        v.push(Piece::WR);
        v.push(Piece::WQ);
        v.push(Piece::WK);
        v.push(Piece::BP);
        v.push(Piece::BN);
        v.push(Piece::BB);
        v.push(Piece::BR);
        v.push(Piece::BQ);
        v.push(Piece::BK);
        v
    }

    /// The dense index of this piece, as a `u8`.
    pub fn inner(self) -> (r: u8)
        ensures
            r as int == self.idx(),
            r < 12,
    {
        match self {
            Piece::WP => 0,
            Piece::WN => 1,
            Piece::WB => 2,
            Piece::WR => 3,
            Piece::WQ => 4,
            Piece::WK => 5,
            Piece::BP => 6,
            Piece::BN => 7,
            Piece::BB => 8,
            Piece::BR => 9,
            Piece::BQ => 10,
            Piece::BK => 11,
        }
    }
}

} // verus!
