//! Board representation and attack generation for chess: packed 64-bit
//! square sets ("bitboards"), dense coordinate types, ray-walked attack
//! computation, magic perfect-hash sliding-attack tables, and an aggregate
//! `Board` whose piece/colour bitboards satisfy machine-checked invariants.

pub mod attacks;
pub mod bitboard;
pub mod board;
pub mod col;
pub mod consts;
pub mod file;
pub mod magic;
pub mod piece;
pub mod piecetype;
pub mod rank;
pub mod square;
