//! Piece kinds and their dense indexing, promotion predicates, and symbol
//! conversions.

use vstd::prelude::*;

use crate::consts::PieceType;

verus! {

/// The piece kind named by the ASCII symbol `c` (`P`, `N`, `B`, `R`, `Q`,
/// `K`), or `None` for any other byte.
pub open spec fn piecetype_of_symbol(c: u8) -> Option<PieceType> {
    if c == 80 {
        Some(PieceType::Pawn)
    } else if c == 78 {
        Some(PieceType::Knight)
    } else if c == 66 {
        Some(PieceType::Bishop)
    } else if c == 82 {
        Some(PieceType::Rook)
    } else if c == 81 {
        Some(PieceType::Queen)
    } else if c == 75 {
        Some(PieceType::King)
    } else {
        None
    }
}

impl PieceType {
    /// The dense index of this kind: pawn `0` through king `5`.
    pub open spec fn idx(self) -> int {
        match self {
            PieceType::Pawn => 0,
            PieceType::Knight => 1,
            PieceType::Bishop => 2,
            PieceType::Rook => 3,
            PieceType::Queen => 4,
            PieceType::King => 5,
        }
    }

    /// The piece kind of index `v`, or `None` when `v` is out of range.
    pub fn new(v: u8) -> (r: Option<PieceType>)
        ensures
            r is Some <==> v < 6,
            v < 6 ==> r->Some_0.idx() == v as int,
    {
        match v {
            0 => Some(PieceType::Pawn),
            1 => Some(PieceType::Knight),
            2 => Some(PieceType::Bishop),
            3 => Some(PieceType::Rook),
            4 => Some(PieceType::Queen),
            5 => Some(PieceType::King),
            _ => None,
        }
    }

    /// The piece kind of index `v`; the caller must have shown the bound.
    pub fn from_index_unchecked(v: u8) -> (r: PieceType)
        requires
            v < 6,
        ensures
            r.idx() == v as int,
    {
        match PieceType::new(v) {
            Some(pt) => pt,
            None => PieceType::Pawn,
        }
    }

    /// The dense index of this kind, as a `u8`.
    pub fn inner(self) -> (r: u8)
        ensures
            r as int == self.idx(),
            r < 6,
    {
        match self {
            PieceType::Pawn => 0,
            PieceType::Knight => 1,
            PieceType::Bishop => 2,
            PieceType::Rook => 3,
            PieceType::Queen => 4,
            PieceType::King => 5,
        }
    }

    /// True iff a pawn may promote to this kind.
    pub fn legal_promo(self) -> (r: bool)
        ensures
            r == (self == PieceType::Queen || self == PieceType::Knight || self
                == PieceType::Bishop || self == PieceType::Rook),
    {
        match self {
            PieceType::Queen | PieceType::Knight | PieceType::Bishop | PieceType::Rook => true,
            _ => false,
        }
    }

    /// The lower-case promotion letter of this kind, or `None` for kinds a
    /// pawn cannot promote to.
    pub fn promo_char(self) -> (r: Option<char>)
        ensures
            r == match self {
                PieceType::Queen => Some('q'),
                PieceType::Knight => Some('n'),
                PieceType::Bishop => Some('b'),
                PieceType::Rook => Some('r'),
                _ => None::<char>,
            },
    {
        match self {
            PieceType::Queen => Some('q'),
            PieceType::Knight => Some('n'),
            PieceType::Bishop => Some('b'),
            PieceType::Rook => Some('r'),
            _ => None,
        }
    }

    /// All six piece kinds, in index order.
    pub fn all() -> (r: Vec<PieceType>)
        ensures
            r@ =~= seq![
                PieceType::Pawn,
                PieceType::Knight,
                PieceType::Bishop,
                PieceType::Rook,
                PieceType::Queen,
                PieceType::King,
            ],
    {
        let mut v: Vec<PieceType> = Vec::new();
        v.push(PieceType::Pawn);
        v.push(PieceType::Knight);
        v.push(PieceType::Bishop);
        v.push(PieceType::Rook);
        v.push(PieceType::Queen);
        v.push(PieceType::King);
        v
    }

    /// The dense index of this kind, as a `usize`.
    pub fn index(self) -> (r: usize)
        ensures
            r == self.idx(),
            r < 6,
    {
        match self {
            PieceType::Pawn => 0,
            PieceType::Knight => 1,
            PieceType::Bishop => 2,
            PieceType::Rook => 3,
            PieceType::Queen => 4,
            PieceType::King => 5,
        }
    }

    /// The piece kind named by the ASCII byte `c`, or `None` for any other
    /// byte.
    pub fn from_symbol(c: u8) -> (r: Option<PieceType>)
        ensures
            r == piecetype_of_symbol(c),
    {
        // ASCII: 'P' 80, 'N' 78, 'B' 66, 'R' 82, 'Q' 81, 'K' 75.
        match c {
            80 => Some(PieceType::Pawn),
            78 => Some(PieceType::Knight),
            66 => Some(PieceType::Bishop),
            82 => Some(PieceType::Rook),
            81 => Some(PieceType::Queen),
            75 => Some(PieceType::King),
            _ => None,
        }
    }

    /// The capitalised English name of this kind.
    pub fn name(self) -> (r: &'static str)
        ensures
            self == PieceType::Pawn ==> r@ == "Pawn"@,
            self == PieceType::Knight ==> r@ == "Knight"@,
            self == PieceType::Bishop ==> r@ == "Bishop"@,
            self == PieceType::Rook ==> r@ == "Rook"@,
            self == PieceType::Queen ==> r@ == "Queen"@,
            self == PieceType::King ==> r@ == "King"@,
    {
        match self {
            PieceType::Pawn => "Pawn",
            PieceType::Knight => "Knight",
            PieceType::Bishop => "Bishop",
            PieceType::Rook => "Rook",
            PieceType::Queen => "Queen",
            PieceType::King => "King",
        }
    }
}

} // verus!
