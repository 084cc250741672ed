//! The aggregate position: six piece-kind bitboards, two colour
//! bitboards, and the derived occupancy, with accessors and single-square
//! mutators that preserve the cross-invariants.
//!
//! The well-formedness invariant [`Board::wf`] is stated square by
//! square: no square holds two piece kinds or two colours, and a square
//! is occupied exactly when some piece board — equivalently, some colour
//! board — holds it. Constructors establish it, every mutator preserves
//! it, and [`lemma_board_disjointness`] and [`lemma_board_occupancy`]
//! restate it as the set-level laws.

use vstd::prelude::*;

use crate::attacks;
use crate::attacks::attacks_spec;
use crate::attacks::bishop_rays;
use crate::attacks::king_steps;
use crate::attacks::knight_steps;
use crate::attacks::pawn_steps;
use crate::attacks::rook_rays;
use crate::bitboard;
use crate::bitboard::has_bit;
use crate::bitboard::lemma_bit_ext;
use crate::bitboard::lemma_bit_ops;
use crate::bitboard::lemma_single_bit;
use crate::bitboard::lsb_index;
use crate::consts::BitBoard;
use crate::consts::Board;
use crate::consts::Col;
use crate::consts::Piece;
use crate::consts::PieceType;
use crate::consts::Square;
use crate::consts::BB_EMPTY;
use crate::piece::piece_of;

verus! {

/// The six piece boards hold no square in common, pair by pair.
pub open spec fn pieces_pairwise_disjoint(bp: [BitBoard; 6]) -> bool {
    &&& bp[0] & bp[1] == 0
    &&& bp[0] & bp[2] == 0
    &&& bp[0] & bp[3] == 0
    &&& bp[0] & bp[4] == 0
    &&& bp[0] & bp[5] == 0
    &&& bp[1] & bp[2] == 0
    &&& bp[1] & bp[3] == 0
    &&& bp[1] & bp[4] == 0
    &&& bp[1] & bp[5] == 0
    &&& bp[2] & bp[3] == 0
    &&& bp[2] & bp[4] == 0
    &&& bp[2] & bp[5] == 0
    &&& bp[3] & bp[4] == 0
    &&& bp[3] & bp[5] == 0
    &&& bp[4] & bp[5] == 0
}

/// The union of the six piece boards.
pub open spec fn union6(bp: [BitBoard; 6]) -> u64 {
    bp[0] | bp[1] | bp[2] | bp[3] | bp[4] | bp[5]
}

/// The union of the two colour boards.
pub open spec fn union2(bc: [BitBoard; 2]) -> u64 {
    bc[0] | bc[1]
}

impl Board {
    /// The board of the piece kind `t`.
    pub open spec fn piece_bb(self, t: PieceType) -> u64 {
        self.by_piece[t.idx()]
    }

    /// The board of the colour `c`.
    pub open spec fn col_bb(self, c: Col) -> u64 {
        self.by_col[c.idx()]
    }

    /// The invariant at one square: at most one piece kind and at most
    /// one colour hold it, and it is occupied exactly when some piece
    /// kind — equivalently, some colour — holds it.
    pub open spec fn wf_at(self, i: int) -> bool {
        let p0 = has_bit(self.by_piece[0], i);
        let p1 = has_bit(self.by_piece[1], i);
        let p2 = has_bit(self.by_piece[2], i);
        let p3 = has_bit(self.by_piece[3], i);
        let p4 = has_bit(self.by_piece[4], i);
        let p5 = has_bit(self.by_piece[5], i);
        let c0 = has_bit(self.by_col[0], i);
        let c1 = has_bit(self.by_col[1], i);
        let oc = has_bit(self.occupied, i);
        &&& !(p0 && p1)
        &&& !(p0 && p2)
        &&& !(p0 && p3)
        &&& !(p0 && p4)
        &&& !(p0 && p5)
        &&& !(p1 && p2)
        &&& !(p1 && p3)
        &&& !(p1 && p4)
        &&& !(p1 && p5)
        &&& !(p2 && p3)
        &&& !(p2 && p4)
        &&& !(p2 && p5)
        &&& !(p3 && p4)
        &&& !(p3 && p5)
        &&& !(p4 && p5)
        &&& !(c0 && c1)
        &&& oc == (p0 || p1 || p2 || p3 || p4 || p5)
        &&& oc == (c0 || c1)
    }

    /// The invariant holds at every square.
    pub open spec fn wf(self) -> bool {
        forall|i: int| self.wf_at(i)
    }

    /// The piece kind standing on square `i`, if any.
    pub open spec fn type_at(self, i: int) -> Option<PieceType> {
        if has_bit(self.by_piece[0], i) {
            Some(PieceType::Pawn)
        } else if has_bit(self.by_piece[1], i) {
            Some(PieceType::Knight)
        } else if has_bit(self.by_piece[2], i) {
            Some(PieceType::Bishop)
        } else if has_bit(self.by_piece[3], i) {
            Some(PieceType::Rook)
        } else if has_bit(self.by_piece[4], i) {
            Some(PieceType::Queen)
        } else if has_bit(self.by_piece[5], i) {
            Some(PieceType::King)
        } else {
            None
        }
    }

    /// The colour standing on square `i`, if any.
    pub open spec fn colour_at(self, i: int) -> Option<Col> {
        if has_bit(self.by_col[0], i) {
            Some(Col::White)
        } else if has_bit(self.by_col[1], i) {
            Some(Col::Black)
        } else {
            None
        }
    }

    /// The piece standing on square `i`, if any.
    pub open spec fn piece_at_spec(self, i: int) -> Option<Piece> {
        match (self.type_at(i), self.colour_at(i)) {
            (Some(t), Some(c)) => Some(piece_of(c, t)),
            _ => None,
        }
    }
}

/// Every valid board has pairwise disjoint piece boards and disjoint
/// colour boards.
pub proof fn lemma_board_disjointness(b: Board)
    requires
        b.wf(),
    ensures
        pieces_pairwise_disjoint(b.by_piece),
        b.by_col[0] & b.by_col[1] == 0,
{
    lemma_single_bit(0);
    assert forall|j: int, k: int| 0 <= j < k < 6 implies #[trigger] (b.by_piece[j]
        & b.by_piece[k]) == 0 by {
        assert forall|i: int| !(has_bit(b.by_piece[j], i) && has_bit(b.by_piece[k], i)) by {
            assert(b.wf_at(i));
        }
        lemma_bit_ops(b.by_piece[j], b.by_piece[k]);
        lemma_bit_ext(b.by_piece[j] & b.by_piece[k], 0);
    }
    assert forall|i: int| !(has_bit(b.by_col[0], i) && has_bit(b.by_col[1], i)) by {
        assert(b.wf_at(i));
    }
    lemma_bit_ops(b.by_col[0], b.by_col[1]);
    lemma_bit_ext(b.by_col[0] & b.by_col[1], 0);
}

/// On every valid board the occupancy equals the union of the piece
/// boards and the union of the colour boards.
pub proof fn lemma_board_occupancy(b: Board)
    requires
        b.wf(),
    ensures
        b.occupied == union6(b.by_piece),
        b.occupied == union2(b.by_col),
{
    let bp = b.by_piece;
    lemma_bit_ops(bp[0], bp[1]);
    lemma_bit_ops(bp[0] | bp[1], bp[2]);
    lemma_bit_ops(bp[0] | bp[1] | bp[2], bp[3]);
    lemma_bit_ops(bp[0] | bp[1] | bp[2] | bp[3], bp[4]);
    lemma_bit_ops(bp[0] | bp[1] | bp[2] | bp[3] | bp[4], bp[5]);
    assert forall|i: int| has_bit(b.occupied, i) == has_bit(union6(bp), i) by {
        assert(b.wf_at(i));
    }
    lemma_bit_ext(b.occupied, union6(bp));
    lemma_bit_ops(b.by_col[0], b.by_col[1]);
    assert forall|i: int| has_bit(b.occupied, i) == has_bit(union2(b.by_col), i) by {
        assert(b.wf_at(i));
    }
    lemma_bit_ext(b.occupied, union2(b.by_col));
}

/// A board whose piece boards are pairwise disjoint, whose colour boards
/// are disjoint, and whose occupancy equals both unions, is valid.
pub proof fn lemma_board_wf_intro(b: Board)
    requires
        pieces_pairwise_disjoint(b.by_piece),
        b.by_col[0] & b.by_col[1] == 0,
        b.occupied == union6(b.by_piece),
        b.occupied == union2(b.by_col),
    ensures
        b.wf(),
{
    let bp = b.by_piece;
    lemma_single_bit(0);
    lemma_bit_ops(bp[0], bp[1]);
    lemma_bit_ops(bp[0], bp[2]);
    lemma_bit_ops(bp[0], bp[3]);
    lemma_bit_ops(bp[0], bp[4]);
    lemma_bit_ops(bp[0], bp[5]);
    lemma_bit_ops(bp[1], bp[2]);
    lemma_bit_ops(bp[1], bp[3]);
    lemma_bit_ops(bp[1], bp[4]);
    lemma_bit_ops(bp[1], bp[5]);
    lemma_bit_ops(bp[2], bp[3]);
    lemma_bit_ops(bp[2], bp[4]);
    lemma_bit_ops(bp[2], bp[5]);
    lemma_bit_ops(bp[3], bp[4]);
    lemma_bit_ops(bp[3], bp[5]);
    lemma_bit_ops(bp[4], bp[5]);
    lemma_bit_ops(b.by_col[0], b.by_col[1]);
    lemma_bit_ops(bp[0] | bp[1], bp[2]);
    lemma_bit_ops(bp[0] | bp[1] | bp[2], bp[3]);
    lemma_bit_ops(bp[0] | bp[1] | bp[2] | bp[3], bp[4]);
    lemma_bit_ops(bp[0] | bp[1] | bp[2] | bp[3] | bp[4], bp[5]);
    assert forall|i: int| b.wf_at(i) by {
        assert(!has_bit(0u64, i));
        assert(!has_bit(bp[0] & bp[1], i) && !has_bit(bp[0] & bp[2], i) && !has_bit(
            bp[0] & bp[3],
            i,
        ) && !has_bit(bp[0] & bp[4], i) && !has_bit(bp[0] & bp[5], i) && !has_bit(
            bp[1] & bp[2],
            i,
        ) && !has_bit(bp[1] & bp[3], i) && !has_bit(bp[1] & bp[4], i) && !has_bit(
            bp[1] & bp[5],
            i,
        ) && !has_bit(bp[2] & bp[3], i) && !has_bit(bp[2] & bp[4], i) && !has_bit(
            bp[2] & bp[5],
            i,
        ) && !has_bit(bp[3] & bp[4], i) && !has_bit(bp[3] & bp[5], i) && !has_bit(
            bp[4] & bp[5],
            i,
        ) && !has_bit(b.by_col[0] & b.by_col[1], i));
        assert(has_bit(bp[0] | bp[1], i) == (has_bit(bp[0], i) || has_bit(bp[1], i)));
        assert(has_bit(bp[0] | bp[1] | bp[2], i) == (has_bit(bp[0] | bp[1], i) || has_bit(
            bp[2],
            i,
        )));
        assert(has_bit(bp[0] | bp[1] | bp[2] | bp[3], i) == (has_bit(bp[0] | bp[1] | bp[2], i)
            || has_bit(bp[3], i)));
        assert(has_bit(bp[0] | bp[1] | bp[2] | bp[3] | bp[4], i) == (has_bit(
            bp[0] | bp[1] | bp[2] | bp[3],
            i,
        ) || has_bit(bp[4], i)));
        assert(has_bit(union6(bp), i) == (has_bit(bp[0] | bp[1] | bp[2] | bp[3] | bp[4], i)
            || has_bit(bp[5], i)));
        assert(has_bit(union2(b.by_col), i) == (has_bit(b.by_col[0], i) || has_bit(
            b.by_col[1],
            i,
        )));
    }
}

impl Board {
    /// The standard chess starting position.
    pub fn new() -> (r: Board)
        ensures
            r.wf(),
            r.by_piece@ =~= seq![
                0x00ff_0000_0000_ff00u64,
                0x4200_0000_0000_0042u64,
                0x2400_0000_0000_0024u64,
                0x8100_0000_0000_0081u64,
                0x0800_0000_0000_0008u64,
                0x1000_0000_0000_0010u64,
            ],
            r.by_col@ =~= seq![0xffffu64, 0xffff_0000_0000_0000u64],
            r.occupied == 0xffff_0000_0000_ffffu64,
    {
        let b = Board {
            by_piece: [
                0x00ff_0000_0000_ff00,
                0x4200_0000_0000_0042,
                0x2400_0000_0000_0024,
                0x8100_0000_0000_0081,
                0x0800_0000_0000_0008,
                0x1000_0000_0000_0010,
            ],
            by_col: [0xffff, 0xffff_0000_0000_0000],
            occupied: 0xffff_0000_0000_ffff,
        };
        proof {
            assert(0x00ff_0000_0000_ff00u64 & 0x4200_0000_0000_0042u64 == 0
                && 0x00ff_0000_0000_ff00u64 & 0x2400_0000_0000_0024u64 == 0
                && 0x00ff_0000_0000_ff00u64 & 0x8100_0000_0000_0081u64 == 0
                && 0x00ff_0000_0000_ff00u64 & 0x0800_0000_0000_0008u64 == 0
                && 0x00ff_0000_0000_ff00u64 & 0x1000_0000_0000_0010u64 == 0
                && 0x4200_0000_0000_0042u64 & 0x2400_0000_0000_0024u64 == 0
                && 0x4200_0000_0000_0042u64 & 0x8100_0000_0000_0081u64 == 0
                && 0x4200_0000_0000_0042u64 & 0x0800_0000_0000_0008u64 == 0
                && 0x4200_0000_0000_0042u64 & 0x1000_0000_0000_0010u64 == 0
                && 0x2400_0000_0000_0024u64 & 0x8100_0000_0000_0081u64 == 0
                && 0x2400_0000_0000_0024u64 & 0x0800_0000_0000_0008u64 == 0
                && 0x2400_0000_0000_0024u64 & 0x1000_0000_0000_0010u64 == 0
                && 0x8100_0000_0000_0081u64 & 0x0800_0000_0000_0008u64 == 0
                && 0x8100_0000_0000_0081u64 & 0x1000_0000_0000_0010u64 == 0
                && 0x0800_0000_0000_0008u64 & 0x1000_0000_0000_0010u64 == 0
                && 0xffffu64 & 0xffff_0000_0000_0000u64 == 0
                && 0xffff_0000_0000_ffffu64 == (0x00ff_0000_0000_ff00u64
                | 0x4200_0000_0000_0042u64 | 0x2400_0000_0000_0024u64 | 0x8100_0000_0000_0081u64
                | 0x0800_0000_0000_0008u64 | 0x1000_0000_0000_0010u64)
                && 0xffff_0000_0000_ffffu64 == (0xffffu64 | 0xffff_0000_0000_0000u64))
                by (bit_vector);
            lemma_board_wf_intro(b);
        }
        b
    }

    /// The empty position.
    pub fn empty() -> (r: Board)
        ensures
            r.wf(),
            r.by_piece@ =~= seq![0u64, 0u64, 0u64, 0u64, 0u64, 0u64],
            r.by_col@ =~= seq![0u64, 0u64],
            r.occupied == 0,
            forall|i: int| r.piece_at_spec(i) is None,
    {
        let b = Board { by_piece: [BB_EMPTY;6], by_col: [BB_EMPTY;2], occupied: BB_EMPTY };
        proof {
            assert(0u64 & 0u64 == 0 && (0u64 | 0u64 | 0u64 | 0u64 | 0u64 | 0u64) == 0 && (0u64
                | 0u64) == 0) by (bit_vector);
            lemma_board_wf_intro(b);
            lemma_single_bit(0);
        }
        b
    }

    /// Validates raw bitboards into a board. The checks run in order:
    /// overlapping piece boards, then overlapping colour boards, then an
    /// occupancy mismatch between the two groupings; the first violation
    /// is reported. On success the board is valid and its occupancy is
    /// the union of the piece boards.
    pub fn try_from_bitboards(by_piece: [BitBoard; 6], by_col: [BitBoard; 2]) -> (r: Result<
        Board,
        &'static str,
    >)
        ensures
            r is Ok <==> pieces_pairwise_disjoint(by_piece) && by_col[0] & by_col[1] == 0
                && union6(by_piece) == union2(by_col),
            r matches Ok(b) ==> b.wf() && b.by_piece == by_piece && b.by_col == by_col
                && b.occupied == union6(by_piece),
            !pieces_pairwise_disjoint(by_piece) ==> r == Err::<Board, &'static str>(
                "roles overlap",
            ),
            pieces_pairwise_disjoint(by_piece) && by_col[0] & by_col[1] != 0 ==> r == Err::<
                Board,
                &'static str,
            >("colours overlap"),
            pieces_pairwise_disjoint(by_piece) && by_col[0] & by_col[1] == 0 && union6(by_piece)
                != union2(by_col) ==> r == Err::<Board, &'static str>(
                "roles and colours are mismatched",
            ),
    {
        let mut overlap = false;
        let mut i: usize = 0;
        while i < 6
            invariant
                i <= 6,
                overlap == !(forall|j: int, k: int|
                    0 <= j < k < 6 && j < i ==> #[trigger] (by_piece[j] & by_piece[k]) == 0),
            decreases 6 - i,
        {
            let mut k: usize = i + 1;
            while k < 6
                invariant
                    i < 6,
                    i < k <= 6,
                    overlap == !((forall|j2: int, k2: int|
                        0 <= j2 < k2 < 6 && j2 < i ==> #[trigger] (by_piece[j2] & by_piece[k2])
                            == 0) && (forall|k2: int|
                        i < k2 < k ==> #[trigger] (by_piece[i as int] & by_piece[k2]) == 0)),
                decreases 6 - k,
            {
                if by_piece[i] & by_piece[k] != 0 {
                    overlap = true;
                }
                k = k + 1;
            }
            i = i + 1;
        }
        if overlap {
            return Err("roles overlap");
        }
        if by_col[1] & by_col[0] != 0 {
            proof {
                crate::bitboard::lemma_word_facts();
            }
            return Err("colours overlap");
        }
        let occupied = by_piece[0] | by_piece[1] | by_piece[2] | by_piece[3] | by_piece[4]
            | by_piece[5];
        if occupied != by_col[1] | by_col[0] {
            proof {
                crate::bitboard::lemma_word_facts();
            }
            return Err("roles and colours are mismatched");
        }
        let b = Board { by_piece, by_col, occupied };
        proof {
            crate::bitboard::lemma_word_facts();
            lemma_board_wf_intro(b);
        }
        Ok(b)
    }

    /// The stored bitboards, piece boards first.
    pub fn into_bitboards(self) -> (r: ([BitBoard; 6], [BitBoard; 2]))
        ensures
            r.0 == self.by_piece,
            r.1 == self.by_col,
    {
        (self.by_piece, self.by_col)
    }

    /// The set of occupied squares.
    pub fn occupied(&self) -> (r: BitBoard)
        ensures
            r == self.occupied,
    {
        self.occupied
    }

    /// The set of squares holding pawns.
    pub fn pawns(&self) -> (r: BitBoard)
        ensures
            r == self.piece_bb(PieceType::Pawn),
    {
        self.by_piece[PieceType::Pawn.index()]
    }

    /// The set of squares holding knights.
    pub fn knights(&self) -> (r: BitBoard)
        ensures
            r == self.piece_bb(PieceType::Knight),
    {
        self.by_piece[PieceType::Knight.index()]
    }

    /// The set of squares holding bishops.
    pub fn bishops(&self) -> (r: BitBoard)
        ensures
            r == self.piece_bb(PieceType::Bishop),
    {
        self.by_piece[PieceType::Bishop.index()]
    }

    /// The set of squares holding rooks.
    pub fn rooks(&self) -> (r: BitBoard)
        ensures
            r == self.piece_bb(PieceType::Rook),
    {
        self.by_piece[PieceType::Rook.index()]
    }

    /// The set of squares holding queens.
    pub fn queens(&self) -> (r: BitBoard)
        ensures
            r == self.piece_bb(PieceType::Queen),
    {
        self.by_piece[PieceType::Queen.index()]
    }

    /// The set of squares holding kings.
    pub fn kings(&self) -> (r: BitBoard)
        ensures
            r == self.piece_bb(PieceType::King),
    {
        self.by_piece[PieceType::King.index()]
    }

    /// The set of squares holding white pieces.
    pub fn white(&self) -> (r: BitBoard)
        ensures
            r == self.col_bb(Col::White),
    {
        self.by_col[Col::White.index()]
    }

    /// The set of squares holding black pieces.
    pub fn black(&self) -> (r: BitBoard)
        ensures
            r == self.col_bb(Col::Black),
    {
        self.by_col[Col::Black.index()]
    }

    /// The set of squares holding sliding pieces. The exclusive or
    /// equals the union on every valid board, where the piece boards are
    /// disjoint.
    pub fn sliders(&self) -> (r: BitBoard)
        ensures
            r == self.piece_bb(PieceType::Rook) ^ self.piece_bb(PieceType::Bishop) ^ self.piece_bb(
                PieceType::Queen,
            ),
            self.wf() ==> r == self.piece_bb(PieceType::Rook) | self.piece_bb(PieceType::Bishop)
                | self.piece_bb(PieceType::Queen),
    {
        proof {
            if self.wf() {
                lemma_board_disjointness(*self);
                crate::bitboard::lemma_word_facts();
                let a = self.by_piece[3];
                let b = self.by_piece[2];
                let c = self.by_piece[4];
                assert(a & b == 0 && a & c == 0 && b & c == 0);
                assert(a ^ b == (a | b) && ((a | b) & c) == 0);
                assert((a ^ b) ^ c == ((a | b) | c));
            }
        }
        self.by_piece[3] ^ self.by_piece[2] ^ self.by_piece[4]
    }

    /// The set of squares holding stepping pieces. The exclusive or
    /// equals the union on every valid board.
    pub fn steppers(&self) -> (r: BitBoard)
        ensures
            r == self.piece_bb(PieceType::Knight) ^ self.piece_bb(PieceType::Pawn) ^ self.piece_bb(
                PieceType::King,
            ),
            self.wf() ==> r == self.piece_bb(PieceType::Knight) | self.piece_bb(PieceType::Pawn)
                | self.piece_bb(PieceType::King),
    {
        proof {
            if self.wf() {
                lemma_board_disjointness(*self);
                crate::bitboard::lemma_word_facts();
                let a = self.by_piece[1];
                let b = self.by_piece[0];
                let c = self.by_piece[5];
                assert(a & b == 0 && a & c == 0 && b & c == 0);
                assert(a ^ b == (a | b) && ((a | b) & c) == 0);
                assert((a ^ b) ^ c == ((a | b) | c));
            }
        }
        self.by_piece[1] ^ self.by_piece[0] ^ self.by_piece[5]
    }

    /// The set of squares holding rooks or queens. The exclusive or
    /// equals the union on every valid board.
    pub fn rooks_and_queens(&self) -> (r: BitBoard)
        ensures
            r == self.piece_bb(PieceType::Rook) ^ self.piece_bb(PieceType::Queen),
            self.wf() ==> r == self.piece_bb(PieceType::Rook) | self.piece_bb(PieceType::Queen),
    {
        proof {
            if self.wf() {
                lemma_board_disjointness(*self);
                crate::bitboard::lemma_word_facts();
                let a = self.by_piece[3];
                let b = self.by_piece[4];
                assert(a ^ b == (a | b));
            }
        }
        self.by_piece[3] ^ self.by_piece[4]
    }

    /// The set of squares holding bishops or queens. The exclusive or
    /// equals the union on every valid board.
    pub fn bishops_and_queens(&self) -> (r: BitBoard)
        ensures
            r == self.piece_bb(PieceType::Bishop) ^ self.piece_bb(PieceType::Queen),
            self.wf() ==> r == self.piece_bb(PieceType::Bishop) | self.piece_bb(PieceType::Queen),
    {
        proof {
            if self.wf() {
                lemma_board_disjointness(*self);
                crate::bitboard::lemma_word_facts();
                let a = self.by_piece[2];
                let b = self.by_piece[4];
                assert(a ^ b == (a | b));
            }
        }
        self.by_piece[2] ^ self.by_piece[4]
    }

    /// The lowest square holding a king of `colour`, or `A1` when that
    /// colour has no king on the board.
    pub fn king_of(&self, colour: Col) -> (r: Square)
        ensures
            self.piece_bb(PieceType::King) & self.col_bb(colour) == 0 ==> r == Square::A1,
            self.piece_bb(PieceType::King) & self.col_bb(colour) != 0 ==> r.idx() == lsb_index(
                self.piece_bb(PieceType::King) & self.col_bb(colour),
            ),
    {
        bitboard::first(self.by_piece[PieceType::King.index()] & self.by_col[colour.index()])
    }

    /// The colour of the piece on `square`, if any.
    pub fn col_at(&self, square: Square) -> (r: Option<Col>)
        ensures
            r == self.colour_at(square.idx()),
    {
        let mask = bitboard::from_square(square);
        if self.by_col[0] & mask != 0 {
            Some(Col::White)
        } else if self.by_col[1] & mask != 0 {
            Some(Col::Black)
        } else {
            None
        }
    }

    /// The kind of the piece on `square`, if any.
    pub fn piecetype_at(&self, square: Square) -> (r: Option<PieceType>)
        ensures
            r == self.type_at(square.idx()),
    {
        let mask = bitboard::from_square(square);
        if self.by_piece[0] & mask != 0 {
            Some(PieceType::Pawn)
        } else if self.by_piece[1] & mask != 0 {
            Some(PieceType::Knight)
        } else if self.by_piece[2] & mask != 0 {
            Some(PieceType::Bishop)
        } else if self.by_piece[3] & mask != 0 {
            Some(PieceType::Rook)
        } else if self.by_piece[4] & mask != 0 {
            Some(PieceType::Queen)
        } else if self.by_piece[5] & mask != 0 {
            Some(PieceType::King)
        } else {
            None
        }
    }

    /// The piece on `square`, if any.
    pub fn piece_at(&self, square: Square) -> (r: Option<Piece>)
        ensures
            r == self.piece_at_spec(square.idx()),
    {
        let piecetype = self.piecetype_at(square);
        let col = self.col_at(square);
        match (piecetype, col) {
            (Some(t), Some(c)) => Some(Piece::from_piecetype_and_col(t, c)),
            _ => None,
        }
    }

    /// Removes and returns the piece on `sq`, if any. Every other square
    /// keeps its piece, and the board stays valid.
    pub fn remove_piece_at(&mut self, sq: Square) -> (r: Option<Piece>)
        requires
            old(self).wf(),
        ensures
            final(self).wf(),
            r == old(self).piece_at_spec(sq.idx()),
            final(self).piece_at_spec(sq.idx()) is None,
            forall|j: int|
                j != sq.idx() ==> #[trigger] final(self).piece_at_spec(j) == old(
                    self,
                ).piece_at_spec(j),
    {
        let piece = self.piece_at(sq);
        match piece {
            None => None,
            Some(piece) => {
                self.clear_square(sq, piece);
                Some(piece)
            },
        }
    }

    /// Removes the piece on `sq`, if any. Every other square keeps its
    /// piece, and the board stays valid.
    pub fn discard_piece_at(&mut self, sq: Square)
        requires
            old(self).wf(),
        ensures
            final(self).wf(),
            final(self).piece_at_spec(sq.idx()) is None,
            forall|j: int|
                j != sq.idx() ==> #[trigger] final(self).piece_at_spec(j) == old(
                    self,
                ).piece_at_spec(j),
    {
        let piece = self.piece_at(sq);
        match piece {
            None => (),
            Some(piece) => {
                self.clear_square(sq, piece);
            },
        }
    }

    /// Clears the bits of `piece`, known to stand on `sq`, from all three
    /// board groups.
    fn clear_square(&mut self, sq: Square, piece: Piece)
        requires
            old(self).wf(),
            old(self).piece_at_spec(sq.idx()) == Some(piece),
        ensures
            final(self).wf(),
            final(self).piece_at_spec(sq.idx()) is None,
            forall|j: int|
                j != sq.idx() ==> #[trigger] final(self).piece_at_spec(j) == old(
                    self,
                ).piece_at_spec(j),
    {
        let ghost o = *self;
        let ghost idx = sq.idx();
        let mask = bitboard::from_square(sq);
        let t = piece.piecetype().index();
        let c = piece.colour().index();
        self.by_piece[t] = self.by_piece[t] & !mask;
        self.by_col[c] = self.by_col[c] & !mask;
        self.occupied = self.occupied & !mask;
        proof {
            lemma_bit_ops(o.by_piece[t as int], mask);
            lemma_bit_ops(o.by_col[c as int], mask);
            lemma_bit_ops(o.occupied, mask);
            assert forall|i: int| final(self).wf_at(i) by {
                assert(o.wf_at(i));
            }
            assert forall|j: int|
                j != idx implies #[trigger] final(self).piece_at_spec(j) == o.piece_at_spec(j) by {
                assert(o.wf_at(j));
            }
            assert(o.wf_at(idx));
        }
    }

    /// Puts `piece` on `sq`, replacing whatever stood there. Every other
    /// square keeps its piece, and the board stays valid.
    pub fn set_piece_at(&mut self, sq: Square, piece: Piece)
        requires
            old(self).wf(),
        ensures
            final(self).wf(),
            final(self).piece_at_spec(sq.idx()) == Some(piece),
            forall|j: int|
                j != sq.idx() ==> #[trigger] final(self).piece_at_spec(j) == old(
                    self,
                ).piece_at_spec(j),
    {
        self.discard_piece_at(sq);
        self.place_piece(sq, piece);
    }

    /// Puts `piece` on `sq`, which the caller must know to be empty.
    /// Every other square keeps its piece, and the board stays valid.
    pub fn set_new_piece_at(&mut self, sq: Square, piece: Piece)
        requires
            old(self).wf(),
            old(self).piece_at_spec(sq.idx()) is None,
        ensures
            final(self).wf(),
            final(self).piece_at_spec(sq.idx()) == Some(piece),
            forall|j: int|
                j != sq.idx() ==> #[trigger] final(self).piece_at_spec(j) == old(
                    self,
                ).piece_at_spec(j),
    {
        self.place_piece(sq, piece);
    }

    /// Sets the bits of `piece` on the empty square `sq` in all three
    /// board groups.
    fn place_piece(&mut self, sq: Square, piece: Piece)
        requires
            old(self).wf(),
            old(self).piece_at_spec(sq.idx()) is None,
        ensures
            final(self).wf(),
            final(self).piece_at_spec(sq.idx()) == Some(piece),
            forall|j: int|
                j != sq.idx() ==> #[trigger] final(self).piece_at_spec(j) == old(
                    self,
                ).piece_at_spec(j),
    {
        let ghost o = *self;
        let ghost idx = sq.idx();
        let mask = bitboard::from_square(sq);
        let t = piece.piecetype().index();
        let c = piece.colour().index();
        self.by_piece[t] = self.by_piece[t] | mask;
        self.by_col[c] = self.by_col[c] | mask;
        self.occupied = self.occupied | mask;
        proof {
            lemma_bit_ops(o.by_piece[t as int], mask);
            lemma_bit_ops(o.by_col[c as int], mask);
            lemma_bit_ops(o.occupied, mask);
            assert(o.wf_at(idx));
            assert forall|i: int| final(self).wf_at(i) by {
                assert(o.wf_at(i));
            }
            assert forall|j: int|
                j != idx implies #[trigger] final(self).piece_at_spec(j) == o.piece_at_spec(j) by {
                assert(o.wf_at(j));
            }
        }
    }

    /// The board of the colour `col`.
    pub fn by_col(&self, col: Col) -> (r: BitBoard)
        ensures
            r == self.col_bb(col),
    {
        self.by_col[col.index()]
    }

    /// The board of the piece kind `piecetype`.
    pub fn by_piecetype(&self, piecetype: PieceType) -> (r: BitBoard)
        ensures
            r == self.piece_bb(piecetype),
    {
        self.by_piece[piecetype.index()]
    }

    /// The set of squares holding exactly `piece`: its kind board
    /// restricted to its colour board.
    pub fn by_piece(&self, piece: Piece) -> (r: BitBoard)
        ensures
            r == self.piece_bb(piece.type_spec()) & self.col_bb(piece.colour_spec()),
    {
        self.by_piece[piece.piecetype().index()] & self.by_col[piece.colour().index()]
    }

    /// The squares attacked by the piece on `sq` under the board's own
    /// occupancy, or the empty set when `sq` is empty.
    pub fn attacks_from(&self, sq: Square) -> (r: BitBoard)
        ensures
            self.piece_at_spec(sq.idx()) is None ==> r == 0,
            self.piece_at_spec(sq.idx()) matches Some(p) ==> r == attacks_spec(
                sq.idx(),
                p,
                self.occupied,
            ),
    {
        let piece = self.piece_at(sq);
        match piece {
            None => BB_EMPTY,
            Some(piece) => attacks::attacks(sq, piece, self.occupied),
        }
    }

    /// The squares from which a piece of `attacker` attacks `sq` under
    /// the hypothetical occupancy `occupied`: every piece kind queried
    /// with its own attack pattern, pawns by reverse symmetry with the
    /// defender's capture pattern.
    pub fn atacks_to(&self, sq: Square, attacker: Col, occupied: BitBoard) -> (r: BitBoard)
        requires
            self.wf(),
        ensures
            r == self.col_bb(attacker) & ((rook_rays(sq.idx(), occupied) & (self.piece_bb(
                PieceType::Rook,
            ) ^ self.piece_bb(PieceType::Queen))) | (bishop_rays(sq.idx(), occupied)
                & (self.piece_bb(PieceType::Bishop) ^ self.piece_bb(PieceType::Queen))) | (
            knight_steps(sq.idx()) & self.piece_bb(PieceType::Knight)) | (king_steps(sq.idx())
                & self.piece_bb(PieceType::King)) | (pawn_steps(attacker.flipped(), sq.idx())
                & self.piece_bb(PieceType::Pawn))),
    {
        self.by_col(attacker) & ((attacks::rook_attacks(sq, occupied) & self.rooks_and_queens()) | (
        attacks::bishop_attacks(sq, occupied) & self.bishops_and_queens()) | (
        attacks::knight_attacks(sq) & self.by_piecetype(PieceType::Knight)) | (
        attacks::king_attacks(sq) & self.by_piecetype(PieceType::King)) | (attacks::pawn_attacks(
            attacker.flip(),
            sq,
        ) & self.by_piecetype(PieceType::Pawn)))
    }
}

} // verus!
