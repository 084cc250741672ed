//! Core types of the board model: coordinate enumerations, the `BitBoard`
//! alias, the aggregate `Board`, the `Magic` perfect-hash entry, and the
//! named bitboard constants.

use vstd::prelude::*;

verus! {

/// A side to move: one of the two piece colours.
#[derive(Clone, Copy, PartialEq, Eq, Structural, Debug, Hash)]
pub enum Col {
    White,
    Black,
}

/// `Colour` is the spelled-out name of the same two-valued type.
pub type Colour = Col;

/// A board file (column), `A` through `H`, densely indexed `0..8`.
#[derive(Clone, Copy, PartialEq, Eq, Structural, Debug, Hash)]
pub enum File {
    A,
    B,
    C,
    D,
    E,
    F,
    G,
    H,
}

/// A board rank (row), `One` through `Eight`, densely indexed `0..8`.
#[derive(Clone, Copy, PartialEq, Eq, Structural, Debug, Hash)]
pub enum Rank {
    One,
    Two,
    Three,
    Four,
    Five,
    Six,
    Seven,
    Eight,
}

/// A board square, densely indexed `0..64` as `rank * 8 + file`.
#[derive(Clone, Copy, PartialEq, Eq, Structural, Debug, Hash)]
pub enum Square {
    A1, B1, C1, D1, E1, F1, G1, H1,
    A2, B2, C2, D2, E2, F2, G2, H2,
    A3, B3, C3, D3, E3, F3, G3, H3,
    A4, B4, C4, D4, E4, F4, G4, H4,
    A5, B5, C5, D5, E5, F5, G5, H5,
    A6, B6, C6, D6, E6, F6, G6, H6,
    A7, B7, C7, D7, E7, F7, G7, H7,
    A8, B8, C8, D8, E8, F8, G8, H8,
}

/// A piece kind, densely indexed `0..6`.
#[derive(Clone, Copy, PartialEq, Eq, Structural, Debug, Hash)]
pub enum PieceType {
    Pawn,
    Knight,
    Bishop,
    Rook,
    Queen,
    King,
}

/// A coloured piece, densely indexed `0..12` as `colour * 6 + piecetype`.
#[derive(Clone, Copy, PartialEq, Eq, Structural, Debug, Hash)]
pub enum Piece {
    WP, WN, WB, WR, WQ, WK,
    BP, BN, BB, BR, BQ, BK,
}

/// A 64-bit set of squares: bit `i` is set iff square `i` is in the set.
pub type BitBoard = u64;

pub const BB_EMPTY: BitBoard = 0;

pub const BB_FULL: BitBoard = !0;

pub const BB_RANK_1: BitBoard = 0x0000_0000_0000_00FF;

pub const BB_RANK_2: BitBoard = 0x0000_0000_0000_FF00;

pub const BB_RANK_3: BitBoard = 0x0000_0000_00FF_0000;

pub const BB_RANK_4: BitBoard = 0x0000_0000_FF00_0000;

pub const BB_RANK_5: BitBoard = 0x0000_00FF_0000_0000;

pub const BB_RANK_6: BitBoard = 0x0000_FF00_0000_0000;

pub const BB_RANK_7: BitBoard = 0x00FF_0000_0000_0000;

pub const BB_RANK_8: BitBoard = 0xFF00_0000_0000_0000;

pub const BB_FILE_A: BitBoard = 0x0101_0101_0101_0101;

pub const BB_FILE_B: BitBoard = 0x0202_0202_0202_0202;

pub const BB_FILE_C: BitBoard = 0x0404_0404_0404_0404;

pub const BB_FILE_D: BitBoard = 0x0808_0808_0808_0808;

pub const BB_FILE_E: BitBoard = 0x1010_1010_1010_1010;

pub const BB_FILE_F: BitBoard = 0x2020_2020_2020_2020;

pub const BB_FILE_G: BitBoard = 0x4040_4040_4040_4040;

pub const BB_FILE_H: BitBoard = 0x8080_8080_8080_8080;

pub const BB_LIGHT_SQUARES: BitBoard = 0x55AA_55AA_55AA_55AA;

pub const BB_DARK_SQUARES: BitBoard = 0xAA55_AA55_AA55_AA55;

/// The aggregate position: one bitboard per piece kind, one per colour, and
/// the derived set of all occupied squares. Valid boards satisfy
/// [`Board::wf`]: the piece boards are pairwise disjoint, the colour boards
/// are disjoint, and `occupied` equals the union of either grouping.
#[derive(Clone, PartialEq, Eq, Debug, Hash)]
pub struct Board {
    pub by_piece: [BitBoard; 6],
    pub by_col: [BitBoard; 2],
    pub occupied: BitBoard,
}

/// One per-square entry of a magic perfect-hash table for a sliding-piece
/// family: the relevant-occupancy mask, the magic multiplier, and the base
/// offset into the shared attack table.
#[derive(Clone, Copy, PartialEq, Eq, Structural, Debug)]
pub struct Magic {
    pub mask: u64,
    pub factor: u64,
    pub offset: usize,
}

} // verus!
