//! Square coordinates: conversions between the dense index `0..64`, the
//! (rank, file) decomposition, and the one-square bitboard, together with
//! clamped, checked and precondition-guarded arithmetic on indices.

use vstd::prelude::*;

use crate::bitboard::has_bit;
use crate::consts::BitBoard;
use crate::bitboard::lemma_single_bit;
use crate::consts::Col;
use crate::consts::Colour;
use crate::consts::File;
use crate::consts::Rank;
use crate::consts::Square;

verus! {

impl Square {
    /// The dense index of this square: `rank * 8 + file`.
    pub open spec fn idx(self) -> int {
        match self {
            Square::A1 => 0,
            Square::B1 => 1,
            Square::C1 => 2,
            Square::D1 => 3,
            Square::E1 => 4,
            Square::F1 => 5,
            Square::G1 => 6,
            Square::H1 => 7,
            Square::A2 => 8,
            Square::B2 => 9,
            Square::C2 => 10,
            Square::D2 => 11,
            Square::E2 => 12,
            Square::F2 => 13,
            Square::G2 => 14,
            Square::H2 => 15,
            Square::A3 => 16,
            Square::B3 => 17,
            Square::C3 => 18,
            Square::D3 => 19,
            Square::E3 => 20,
            Square::F3 => 21,
            Square::G3 => 22,
            Square::H3 => 23,
            Square::A4 => 24,
            Square::B4 => 25,
            Square::C4 => 26,
            Square::D4 => 27,
            Square::E4 => 28,
            Square::F4 => 29,
            Square::G4 => 30,
            Square::H4 => 31,
            Square::A5 => 32,
            Square::B5 => 33,
            Square::C5 => 34,
            Square::D5 => 35,
            Square::E5 => 36,
            Square::F5 => 37,
            Square::G5 => 38,
            Square::H5 => 39,
            Square::A6 => 40,
            Square::B6 => 41,
            Square::C6 => 42,
            Square::D6 => 43,
            Square::E6 => 44,
            Square::F6 => 45,
            Square::G6 => 46,
            Square::H6 => 47,
            Square::A7 => 48,
            Square::B7 => 49,
            Square::C7 => 50,
            Square::D7 => 51,
            Square::E7 => 52,
            Square::F7 => 53,
            Square::G7 => 54,
            Square::H7 => 55,
            Square::A8 => 56,
            Square::B8 => 57,
            Square::C8 => 58,
            Square::D8 => 59,
            Square::E8 => 60,
            Square::F8 => 61,
            Square::G8 => 62,
            Square::H8 => 63,
        }
    }

    /// The square with dense index `i`.
    pub open spec fn square_of(i: int) -> Square {
        if i == 0 {
            Square::A1
        } else
        if i == 1 {
            Square::B1
        } else
        if i == 2 {
            Square::C1
        } else
        if i == 3 {
            Square::D1
        } else
        if i == 4 {
            Square::E1
        } else
        if i == 5 {
            Square::F1
        } else
        if i == 6 {
            Square::G1
        } else
        if i == 7 {
            Square::H1
        } else
        if i == 8 {
            Square::A2
        } else
        if i == 9 {
            Square::B2
        } else
        if i == 10 {
            Square::C2
        } else
        if i == 11 {
            Square::D2
        } else
        if i == 12 {
            Square::E2
        } else
        if i == 13 {
            Square::F2
        } else
        if i == 14 {
            Square::G2
        } else
        if i == 15 {
            Square::H2
        } else
        if i == 16 {
            Square::A3
        } else
        if i == 17 {
            Square::B3
        } else
        if i == 18 {
            Square::C3
        } else
        if i == 19 {
            Square::D3
        } else
        if i == 20 {
            Square::E3
        } else
        if i == 21 {
            Square::F3
        } else
        if i == 22 {
            Square::G3
        } else
        if i == 23 {
            Square::H3
        } else
        if i == 24 {
            Square::A4
        } else
        if i == 25 {
            Square::B4
        } else
        if i == 26 {
            Square::C4
        } else
        if i == 27 {
            Square::D4
        } else
        if i == 28 {
            Square::E4
        } else
        if i == 29 {
            Square::F4
        } else
        if i == 30 {
            Square::G4
        } else
        if i == 31 {
            Square::H4
        } else
        if i == 32 {
            Square::A5
        } else
        if i == 33 {
            Square::B5
        } else
        if i == 34 {
            Square::C5
        } else
        if i == 35 {
            Square::D5
        } else
        if i == 36 {
            Square::E5
        } else
        if i == 37 {
            Square::F5
        } else
        if i == 38 {
            Square::G5
        } else
        if i == 39 {
            Square::H5
        } else
        if i == 40 {
            Square::A6
        } else
        if i == 41 {
            Square::B6
        } else
        if i == 42 {
            Square::C6
        } else
        if i == 43 {
            Square::D6
        } else
        if i == 44 {
            Square::E6
        } else
        if i == 45 {
            Square::F6
        } else
        if i == 46 {
            Square::G6
        } else
        if i == 47 {
            Square::H6
        } else
        if i == 48 {
            Square::A7
        } else
        if i == 49 {
            Square::B7
        } else
        if i == 50 {
            Square::C7
        } else
        if i == 51 {
            Square::D7
        } else
        if i == 52 {
            Square::E7
        } else
        if i == 53 {
            Square::F7
        } else
        if i == 54 {
            Square::G7
        } else
        if i == 55 {
            Square::H7
        } else
        if i == 56 {
            Square::A8
        } else
        if i == 57 {
            Square::B8
        } else
        if i == 58 {
            Square::C8
        } else
        if i == 59 {
            Square::D8
        } else
        if i == 60 {
            Square::E8
        } else
        if i == 61 {
            Square::F8
        } else
        if i == 62 {
            Square::G8
        } else
        {
            Square::H8
        }
    }

    /// The dense index of this square, as a `usize`.
    pub fn index(self) -> (r: usize)
        ensures
            r == self.idx(),
            r < 64,
    {
        match self {
            Square::A1 => 0,
            Square::B1 => 1,
            Square::C1 => 2,
            Square::D1 => 3,
            Square::E1 => 4,
            Square::F1 => 5,
            Square::G1 => 6,
            Square::H1 => 7,
            Square::A2 => 8,
            Square::B2 => 9,
            Square::C2 => 10,
            Square::D2 => 11,
            Square::E2 => 12,
            Square::F2 => 13,
            Square::G2 => 14,
            Square::H2 => 15,
            Square::A3 => 16,
            Square::B3 => 17,
            Square::C3 => 18,
            Square::D3 => 19,
            Square::E3 => 20,
            Square::F3 => 21,
            Square::G3 => 22,
            Square::H3 => 23,
            Square::A4 => 24,
            Square::B4 => 25,
            Square::C4 => 26,
            Square::D4 => 27,
            Square::E4 => 28,
            Square::F4 => 29,
            Square::G4 => 30,
            Square::H4 => 31,
            Square::A5 => 32,
            Square::B5 => 33,
            Square::C5 => 34,
            Square::D5 => 35,
            Square::E5 => 36,
            Square::F5 => 37,
            Square::G5 => 38,
            Square::H5 => 39,
            Square::A6 => 40,
            Square::B6 => 41,
            Square::C6 => 42,
            Square::D6 => 43,
            Square::E6 => 44,
            Square::F6 => 45,
            Square::G6 => 46,
            Square::H6 => 47,
            Square::A7 => 48,
            Square::B7 => 49,
            Square::C7 => 50,
            Square::D7 => 51,
            Square::E7 => 52,
            Square::F7 => 53,
            Square::G7 => 54,
            Square::H7 => 55,
            Square::A8 => 56,
            Square::B8 => 57,
            Square::C8 => 58,
            Square::D8 => 59,
            Square::E8 => 60,
            Square::F8 => 61,
            Square::G8 => 62,
            Square::H8 => 63,
        }
    }

    /// The dense index of this square, as a `u8`.
    pub fn inner(self) -> (r: u8)
        ensures
            r as int == self.idx(),
            r < 64,
    {
        match self {
            Square::A1 => 0,
            Square::B1 => 1,
            Square::C1 => 2,
            Square::D1 => 3,
            Square::E1 => 4,
            Square::F1 => 5,
            Square::G1 => 6,
            Square::H1 => 7,
            Square::A2 => 8,
            Square::B2 => 9,
            Square::C2 => 10,
            Square::D2 => 11,
            Square::E2 => 12,
            Square::F2 => 13,
            Square::G2 => 14,
            Square::H2 => 15,
            Square::A3 => 16,
            Square::B3 => 17,
            Square::C3 => 18,
            Square::D3 => 19,
            Square::E3 => 20,
            Square::F3 => 21,
            Square::G3 => 22,
            Square::H3 => 23,
            Square::A4 => 24,
            Square::B4 => 25,
            Square::C4 => 26,
            Square::D4 => 27,
            Square::E4 => 28,
            Square::F4 => 29,
            Square::G4 => 30,
            Square::H4 => 31,
            Square::A5 => 32,
            Square::B5 => 33,
            Square::C5 => 34,
            Square::D5 => 35,
            Square::E5 => 36,
            Square::F5 => 37,
            Square::G5 => 38,
            Square::H5 => 39,
            Square::A6 => 40,
            Square::B6 => 41,
            Square::C6 => 42,
            Square::D6 => 43,
            Square::E6 => 44,
            Square::F6 => 45,
            Square::G6 => 46,
            Square::H6 => 47,
            Square::A7 => 48,
            Square::B7 => 49,
            Square::C7 => 50,
            Square::D7 => 51,
            Square::E7 => 52,
            Square::F7 => 53,
            Square::G7 => 54,
            Square::H7 => 55,
            Square::A8 => 56,
            Square::B8 => 57,
            Square::C8 => 58,
            Square::D8 => 59,
            Square::E8 => 60,
            Square::F8 => 61,
            Square::G8 => 62,
            Square::H8 => 63,
        }
    }

    /// The dense index of this square, as an `i8`.
    pub fn signed_inner(self) -> (r: i8)
        ensures
            r as int == self.idx(),
            0 <= r < 64,
    {
        match self {
            Square::A1 => 0,
            Square::B1 => 1,
            Square::C1 => 2,
            Square::D1 => 3,
            Square::E1 => 4,
            Square::F1 => 5,
            Square::G1 => 6,
            Square::H1 => 7,
            Square::A2 => 8,
            Square::B2 => 9,
            Square::C2 => 10,
            Square::D2 => 11,
            Square::E2 => 12,
            Square::F2 => 13,
            Square::G2 => 14,
            Square::H2 => 15,
            Square::A3 => 16,
            Square::B3 => 17,
            Square::C3 => 18,
            Square::D3 => 19,
            Square::E3 => 20,
            Square::F3 => 21,
            Square::G3 => 22,
            Square::H3 => 23,
            Square::A4 => 24,
            Square::B4 => 25,
            Square::C4 => 26,
            Square::D4 => 27,
            Square::E4 => 28,
            Square::F4 => 29,
            Square::G4 => 30,
            Square::H4 => 31,
            Square::A5 => 32,
            Square::B5 => 33,
            Square::C5 => 34,
            Square::D5 => 35,
            Square::E5 => 36,
            Square::F5 => 37,
            Square::G5 => 38,
            Square::H5 => 39,
            Square::A6 => 40,
            Square::B6 => 41,
            Square::C6 => 42,
            Square::D6 => 43,
            Square::E6 => 44,
            Square::F6 => 45,
            Square::G6 => 46,
            Square::H6 => 47,
            Square::A7 => 48,
            Square::B7 => 49,
            Square::C7 => 50,
            Square::D7 => 51,
            Square::E7 => 52,
            Square::F7 => 53,
            Square::G7 => 54,
            Square::H7 => 55,
            Square::A8 => 56,
            Square::B8 => 57,
            Square::C8 => 58,
            Square::D8 => 59,
            Square::E8 => 60,
            Square::F8 => 61,
            Square::G8 => 62,
            Square::H8 => 63,
        }
    }

    /// The square of index `inner`, or `None` when `inner` is out of range.
    pub fn new(inner: u8) -> (r: Option<Square>)
        ensures
            r is Some <==> inner < 64,
            inner < 64 ==> r == Some(Square::square_of(inner as int)),
            inner < 64 ==> r->Some_0.idx() == inner as int,
    {
        match inner {
            0 => Some(Square::A1),
            1 => Some(Square::B1),
            2 => Some(Square::C1),
            3 => Some(Square::D1),
            4 => Some(Square::E1),
            5 => Some(Square::F1),
            6 => Some(Square::G1),
            7 => Some(Square::H1),
            8 => Some(Square::A2),
            9 => Some(Square::B2),
            10 => Some(Square::C2),
            11 => Some(Square::D2),
            12 => Some(Square::E2),
            13 => Some(Square::F2),
            14 => Some(Square::G2),
            15 => Some(Square::H2),
            16 => Some(Square::A3),
            17 => Some(Square::B3),
            18 => Some(Square::C3),
            19 => Some(Square::D3),
            20 => Some(Square::E3),
            21 => Some(Square::F3),
            22 => Some(Square::G3),
            23 => Some(Square::H3),
            24 => Some(Square::A4),
            25 => Some(Square::B4),
            26 => Some(Square::C4),
            27 => Some(Square::D4),
            28 => Some(Square::E4),
            29 => Some(Square::F4),
            30 => Some(Square::G4),
            31 => Some(Square::H4),
            32 => Some(Square::A5),
            33 => Some(Square::B5),
            34 => Some(Square::C5),
            35 => Some(Square::D5),
            36 => Some(Square::E5),
            37 => Some(Square::F5),
            38 => Some(Square::G5),
            39 => Some(Square::H5),
            40 => Some(Square::A6),
            41 => Some(Square::B6),
            42 => Some(Square::C6),
            43 => Some(Square::D6),
            44 => Some(Square::E6),
            45 => Some(Square::F6),
            46 => Some(Square::G6),
            47 => Some(Square::H6),
            48 => Some(Square::A7),
            49 => Some(Square::B7),
            50 => Some(Square::C7),
            51 => Some(Square::D7),
            52 => Some(Square::E7),
            53 => Some(Square::F7),
            54 => Some(Square::G7),
            55 => Some(Square::H7),
            56 => Some(Square::A8),
            57 => Some(Square::B8),
            58 => Some(Square::C8),
            59 => Some(Square::D8),
            60 => Some(Square::E8),
            61 => Some(Square::F8),
            62 => Some(Square::G8),
            63 => Some(Square::H8),
            _ => None,
        }
    }

    /// The two-character lower-case name of this square.
    pub fn name(self) -> (r: &'static str)
        ensures
            r@ == self.name_spec(),
    {
        match self {
            Square::A1 => "a1",
            Square::B1 => "b1",
            Square::C1 => "c1",
            Square::D1 => "d1",
            Square::E1 => "e1",
            Square::F1 => "f1",
            Square::G1 => "g1",
            Square::H1 => "h1",
            Square::A2 => "a2",
            Square::B2 => "b2",
            Square::C2 => "c2",
            Square::D2 => "d2",
            Square::E2 => "e2",
            Square::F2 => "f2",
            Square::G2 => "g2",
            Square::H2 => "h2",
            Square::A3 => "a3",
            Square::B3 => "b3",
            Square::C3 => "c3",
            Square::D3 => "d3",
            Square::E3 => "e3",
            Square::F3 => "f3",
            Square::G3 => "g3",
            Square::H3 => "h3",
            Square::A4 => "a4",
            Square::B4 => "b4",
            Square::C4 => "c4",
            Square::D4 => "d4",
            Square::E4 => "e4",
            Square::F4 => "f4",
            Square::G4 => "g4",
            Square::H4 => "h4",
            Square::A5 => "a5",
            Square::B5 => "b5",
            Square::C5 => "c5",
            Square::D5 => "d5",
            Square::E5 => "e5",
            Square::F5 => "f5",
            Square::G5 => "g5",
            Square::H5 => "h5",
            Square::A6 => "a6",
            Square::B6 => "b6",
            Square::C6 => "c6",
            Square::D6 => "d6",
            Square::E6 => "e6",
            Square::F6 => "f6",
            Square::G6 => "g6",
            Square::H6 => "h6",
            Square::A7 => "a7",
            Square::B7 => "b7",
            Square::C7 => "c7",
            Square::D7 => "d7",
            Square::E7 => "e7",
            Square::F7 => "f7",
            Square::G7 => "g7",
            Square::H7 => "h7",
            Square::A8 => "a8",
            Square::B8 => "b8",
            Square::C8 => "c8",
            Square::D8 => "d8",
            Square::E8 => "e8",
            Square::F8 => "f8",
            Square::G8 => "g8",
            Square::H8 => "h8",
        }
    }

    /// The name of this square, as a character sequence.
    pub open spec fn name_spec(self) -> Seq<char> {
        match self {
            Square::A1 => "a1"@,
            Square::B1 => "b1"@,
            Square::C1 => "c1"@,
            Square::D1 => "d1"@,
            Square::E1 => "e1"@,
            Square::F1 => "f1"@,
            Square::G1 => "g1"@,
            Square::H1 => "h1"@,
            Square::A2 => "a2"@,
            Square::B2 => "b2"@,
            Square::C2 => "c2"@,
            Square::D2 => "d2"@,
            Square::E2 => "e2"@,
            Square::F2 => "f2"@,
            Square::G2 => "g2"@,
            Square::H2 => "h2"@,
            Square::A3 => "a3"@,
            Square::B3 => "b3"@,
            Square::C3 => "c3"@,
            Square::D3 => "d3"@,
            Square::E3 => "e3"@,
            Square::F3 => "f3"@,
            Square::G3 => "g3"@,
            Square::H3 => "h3"@,
            Square::A4 => "a4"@,
            Square::B4 => "b4"@,
            Square::C4 => "c4"@,
            Square::D4 => "d4"@,
            Square::E4 => "e4"@,
            Square::F4 => "f4"@,
            Square::G4 => "g4"@,
            Square::H4 => "h4"@,
            Square::A5 => "a5"@,
            Square::B5 => "b5"@,
            Square::C5 => "c5"@,
            Square::D5 => "d5"@,
            Square::E5 => "e5"@,
            Square::F5 => "f5"@,
            Square::G5 => "g5"@,
            Square::H5 => "h5"@,
            Square::A6 => "a6"@,
            Square::B6 => "b6"@,
            Square::C6 => "c6"@,
            Square::D6 => "d6"@,
            Square::E6 => "e6"@,
            Square::F6 => "f6"@,
            Square::G6 => "g6"@,
            Square::H6 => "h6"@,
            Square::A7 => "a7"@,
            Square::B7 => "b7"@,
            Square::C7 => "c7"@,
            Square::D7 => "d7"@,
            Square::E7 => "e7"@,
            Square::F7 => "f7"@,
            Square::G7 => "g7"@,
            Square::H7 => "h7"@,
            Square::A8 => "a8"@,
            Square::B8 => "b8"@,
            Square::C8 => "c8"@,
            Square::D8 => "d8"@,
            Square::E8 => "e8"@,
            Square::F8 => "f8"@,
            Square::G8 => "g8"@,
            Square::H8 => "h8"@,
        }
    }

    /// The square on the given rank and file.
    pub fn from_rank_file(rank: Rank, file: File) -> (r: Square)
        ensures
            r.idx() == rank.idx() * 8 + file.idx(),
    {
        let v = rank.inner() * 8 + file.inner();
        match Square::new(v) {
            Some(sq) => sq,
            None => Square::A1,
        }
    }

    /// The square of index `inner`, clamping out-of-range indices to `H8`.
    pub fn new_clamped(inner: u8) -> (r: Square)
        ensures
            r.idx() == if inner < 63 {
                inner as int
            } else {
                63
            },
    {
        let v = if inner < 63 {
            inner
        } else {
            63
        };
        match Square::new(v) {
            Some(sq) => sq,
            None => Square::A1,
        }
    }

    /// The square of index `inner`; the caller must have shown the bound.
    pub fn new_unchecked(inner: u8) -> (r: Square)
        requires
            inner < 64,
        ensures
            r.idx() == inner as int,
    {
        match Square::new(inner) {
            Some(sq) => sq,
            None => Square::A1,
        }
    }

    /// The square mirrored across the horizontal midline: same file, rank
    /// `r` becomes rank `7 - r`.
    pub fn flip_rank(self) -> (r: Square)
        ensures
            r.idx() % 8 == self.idx() % 8,
            r.idx() / 8 == 7 - self.idx() / 8,
    {
        let v = self.inner();
        proof {
            assert(v < 64 ==> (v ^ 56) < 64 && (v ^ 56) % 8 == v % 8 && (v ^ 56) / 8 == 7 - v
                / 8) by (bit_vector);
        }
        Square::new_unchecked(v ^ 56)
    }

    /// The square mirrored across the vertical midline: same rank, file
    /// `f` becomes file `7 - f`.
    pub fn flip_file(self) -> (r: Square)
        ensures
            r.idx() % 8 == 7 - self.idx() % 8,
            r.idx() / 8 == self.idx() / 8,
    {
        let v = self.inner();
        proof {
            assert(v < 64 ==> (v ^ 7) < 64 && (v ^ 7) % 8 == 7 - v % 8 && (v ^ 7) / 8 == v
                / 8) by (bit_vector);
        }
        Square::new_unchecked(v ^ 7)
    }

    /// This square from white's point of view, or its rank-mirror from
    /// black's.
    pub fn relative_to(self, side: Colour) -> (r: Square)
        ensures
            side == Col::White ==> r == self,
            side == Col::Black ==> r.idx() % 8 == self.idx() % 8 && r.idx() / 8 == 7 - self.idx()
                / 8,
    {
        match side {
            Col::White => self,
            Col::Black => self.flip_rank(),
        }
    }

    /// The file of this square.
    pub fn file(self) -> (r: File)
        ensures
            r.idx() == self.idx() % 8,
    {
        let v = self.inner() % 8;
        match File::from_index(v) {
            Some(f) => f,
            None => File::A,
        }
    }

    /// The rank of this square.
    pub fn rank(self) -> (r: Rank)
        ensures
            r.idx() == self.idx() / 8,
    {
        let v = self.inner() / 8;
        match Rank::from_index(v) {
            Some(rk) => rk,
            None => Rank::One,
        }
    }

    /// The king-move distance between two squares: the larger of the file
    /// distance and the rank distance.
    pub fn distance(a: Self, b: Self) -> (r: u8)
        ensures
            r as int == sq_distance(a.idx(), b.idx()),
    {
        let file_diff = a.file().abs_diff(b.file());
        let rank_diff = a.rank().abs_diff(b.rank());
        if file_diff > rank_diff {
            file_diff
        } else {
            rank_diff
        }
    }

    /// The square `offset` indices later, or `None` past `H8`.
    pub fn add(self, offset: u8) -> (r: Option<Square>)
        ensures
            r is Some <==> self.idx() + offset < 64,
            self.idx() + offset < 64 ==> r->Some_0.idx() == self.idx() + offset,
    {
        let sum = self.inner() as u16 + offset as u16;
        if sum < 64 {
            Square::new(sum as u8)
        } else {
            None
        }
    }

    /// The square `offset` indices later, clamping past-the-end sums to
    /// `H8`.
    pub fn saturating_add(self, offset: u8) -> (r: Square)
        ensures
            r.idx() == if self.idx() + offset < 63 {
                self.idx() + offset
            } else {
                63
            },
    {
        let sum = self.inner() as u16 + offset as u16;
        let v = if sum < 63 {
            sum
        } else {
            63
        };
        Square::new_unchecked(v as u8)
    }

    /// The square `offset` indices later; the caller must have shown the
    /// bound.
    pub fn add_unchecked(self, offset: u8) -> (r: Square)
        requires
            self.idx() + offset < 64,
        ensures
            r.idx() == self.idx() + offset,
    {
        Square::new_unchecked(self.inner() + offset)
    }

    /// The square `offset` indices earlier; the caller must have shown the
    /// bound.
    pub fn sub_unchecked(self, offset: u8) -> (r: Square)
        requires
            offset <= self.idx(),
        ensures
            r.idx() == self.idx() - offset,
    {
        Square::new_unchecked(self.inner() - offset)
    }

    /// The square `offset` indices earlier, or `None` before `A1`.
    pub fn sub(self, offset: u8) -> (r: Option<Square>)
        ensures
            r is Some <==> offset <= self.idx(),
            offset <= self.idx() ==> r->Some_0.idx() == self.idx() - offset,
    {
        let v = self.inner();
        if offset > v {
            None
        } else {
            Square::new(v - offset)
        }
    }

    /// The one-square bitboard holding exactly this square.
    pub fn as_bb(self) -> (r: BitBoard)
        ensures
            r == 1u64 << (self.idx() as u64),
            forall|i: int| #[trigger] has_bit(r, i) == (i == self.idx()),
    {
        proof {
            lemma_single_bit(self.idx());
        }
        1u64 << self.index() as u64
    }

    /// The square one pawn push ahead of this one for the given side.
    pub fn pawn_push(self, side: Colour) -> (r: Option<Square>)
        ensures
            side == Col::White ==> (r is Some <==> self.idx() + 8 < 64) && (self.idx() + 8 < 64
                ==> r->Some_0.idx() == self.idx() + 8),
            side == Col::Black ==> (r is Some <==> self.idx() >= 8) && (self.idx() >= 8
                ==> r->Some_0.idx() == self.idx() - 8),
    {
        match side {
            Col::White => self.add(8),
            Col::Black => self.sub(8),
        }
    }

    /// The square one pawn capture to the right of this one for the given
    /// side.
    pub fn pawn_right(self, side: Colour) -> (r: Option<Square>)
        ensures
            side == Col::White ==> (r is Some <==> self.idx() + 9 < 64) && (self.idx() + 9 < 64
                ==> r->Some_0.idx() == self.idx() + 9),
            side == Col::Black ==> (r is Some <==> self.idx() >= 7) && (self.idx() >= 7
                ==> r->Some_0.idx() == self.idx() - 7),
    {
        match side {
            Col::White => self.add(9),
            Col::Black => self.sub(7),
        }
    }

    /// The square one pawn capture to the left of this one for the given
    /// side.
    pub fn pawn_left(self, side: Colour) -> (r: Option<Square>)
        ensures
            side == Col::White ==> (r is Some <==> self.idx() + 7 < 64) && (self.idx() + 7 < 64
                ==> r->Some_0.idx() == self.idx() + 7),
            side == Col::Black ==> (r is Some <==> self.idx() >= 9) && (self.idx() >= 9
                ==> r->Some_0.idx() == self.idx() - 9),
    {
        match side {
            Col::White => self.add(7),
            Col::Black => self.sub(9),
        }
    }

    /// Index order: at or before `other`.
    pub fn le(self, other: Self) -> (r: bool)
        ensures
            r == (self.idx() <= other.idx()),
    {
        self.inner() <= other.inner()
    }

    /// Index order: at or after `other`.
    pub fn ge(self, other: Self) -> (r: bool)
        ensures
            r == (self.idx() >= other.idx()),
    {
        self.inner() >= other.inner()
    }

    /// Index order: strictly before `other`.
    pub fn lt(self, other: Self) -> (r: bool)
        ensures
            r == (self.idx() < other.idx()),
    {
        self.inner() < other.inner()
    }

    /// Index order: strictly after `other`.
    pub fn gt(self, other: Self) -> (r: bool)
        ensures
            r == (self.idx() > other.idx()),
    {
        self.inner() > other.inner()
    }

    /// All 64 squares, in index order.
    pub fn all() -> (r: Vec<Square>)
        ensures
            r@.len() == 64,
            forall|i: int| 0 <= i < 64 ==> #[trigger] r@[i].idx() == i,
    {
        let mut v: Vec<Square> = Vec::new();
        let mut i: u8 = 0;
        while i < 64
            invariant
                i <= 64,
                v@.len() == i as int,
                forall|j: int| 0 <= j < i as int ==> #[trigger] v@[j].idx() == j,
            decreases 64 - i,
        {
            v.push(Square::new_unchecked(i));
            i = i + 1;
        }
        v
    }
}


/// The king-move distance between the squares of index `i` and `j`: the
/// larger of their file distance and their rank distance.
pub open spec fn sq_distance(i: int, j: int) -> int {
    let fd = vstd::math::abs(i % 8 - j % 8) as int;
    let rd = vstd::math::abs(i / 8 - j / 8) as int;
    if fd > rd {
        fd
    } else {
        rd
    }
}

impl core::str::FromStr for Square {
    type Err = &'static str;

    /// Parses a two-character square name such as `"b3"`.
    fn from_str(s: &str) -> Result<Square, &'static str> {
        let b = s.as_bytes();
        if b.len() == 2 {
            let f = b[0];
            let r = b[1];
            // ASCII: 'a'..='h' is 97..=104, '1'..='8' is 49..=56.
            if 97 <= f && f <= 104 && 49 <= r && r <= 56 {
                let v = (r - 49) * 8 + (f - 97);
                match Square::new(v) {
                    Some(sq) => {
                        return Ok(sq);
                    },
                    None => {},
                }
            }
        }
        Err("Invalid square name")
    }
}

/// Every square index lies in `0..64`.
pub broadcast proof fn lemma_square_idx_bounds(s: Square)
    ensures
        0 <= #[trigger] s.idx() < 64,
{
}


} // verus!
