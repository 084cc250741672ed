//! Attack generation: the ray-walk ground truth for sliding pieces and the
//! fixed one-step patterns for stepping pieces.
//!
//! The specification model walks a ray square by square. A step from
//! `from` to `to = from + delta` is valid when `to` is on the board and
//! the file changes by at most two columns — the guard that stops a delta
//! from wrapping across the board edge. A ray adds each reached square and
//! stops at the first occupied one (inclusive, since the ray attacks it).

use vstd::prelude::*;

use crate::bitboard::has_bit;
use crate::bitboard::lemma_bit_ext;
use crate::bitboard::lemma_bit_ops;
use crate::bitboard::lemma_single_bit;
use crate::consts::BitBoard;
use crate::consts::Col;
use crate::consts::Piece;
use crate::consts::PieceType;
use crate::consts::Square;

verus! {

/// The one-square mask of square index `i`.
pub open spec fn sq_bit(i: int) -> u64 {
    1u64 << (i as u64)
}

/// A move from square `from` by a fixed delta lands on square `to`
/// without leaving the board or wrapping across its edge: `to` is in
/// range, and the file changes by at most two columns (one for king and
/// sliding deltas, two for knight deltas).
pub open spec fn valid_step(from: int, to: int) -> bool {
    0 <= to < 64 && -2 <= to % 8 - from % 8 <= 2
}

/// The squares a ray from `from` in direction `delta` attacks under the
/// occupancy `occ`: each square reached in turn, stopping at the board
/// edge or at the first occupied square, which is included.
pub open spec fn ray(from: int, delta: int, occ: u64) -> u64
    decreases (if delta > 0 {
        64 - from
    } else {
        from
    }),
{
    if delta == 0 {
        0
    } else {
        let to = from + delta;
        if !valid_step(from, to) {
            0
        } else if occ & sq_bit(to) != 0 {
            sq_bit(to)
        } else {
            sq_bit(to) | ray(to, delta, occ)
        }
    }
}

/// The single square one `delta`-step from `from`, or the empty set when
/// that step leaves the board.
pub open spec fn step(from: int, delta: int) -> u64 {
    if valid_step(from, from + delta) {
        sq_bit(from + delta)
    } else {
        0
    }
}

/// The rook attack set from square `sq` under occupancy `occ`: the four
/// orthogonal rays.
pub open spec fn rook_rays(sq: int, occ: u64) -> u64 {
    ray(sq, 8, occ) | ray(sq, 1, occ) | ray(sq, -8, occ) | ray(sq, -1, occ)
}

/// The bishop attack set from square `sq` under occupancy `occ`: the four
/// diagonal rays.
pub open spec fn bishop_rays(sq: int, occ: u64) -> u64 {
    ray(sq, 9, occ) | ray(sq, 7, occ) | ray(sq, -9, occ) | ray(sq, -7, occ)
}

/// The queen attack set: the rook and bishop sets combined. The two are
/// disjoint, so the exclusive or equals the union.
pub open spec fn queen_rays(sq: int, occ: u64) -> u64 {
    rook_rays(sq, occ) ^ bishop_rays(sq, occ)
}

/// The knight attack set from square `sq`: the eight L-shaped steps.
pub open spec fn knight_steps(sq: int) -> u64 {
    step(sq, 17) | step(sq, 15) | step(sq, 10) | step(sq, 6) | step(sq, -17) | step(sq, -15)
        | step(sq, -10) | step(sq, -6)
}

/// The king attack set from square `sq`: the eight one-square steps.
pub open spec fn king_steps(sq: int) -> u64 {
    step(sq, 9) | step(sq, 8) | step(sq, 7) | step(sq, 1) | step(sq, -9) | step(sq, -8) | step(
        sq,
        -7,
    ) | step(sq, -1)
}

/// The pawn capture set from square `sq` for the colour `col`: the two
/// forward diagonals, which for black point down the board.
pub open spec fn pawn_steps(col: Col, sq: int) -> u64 {
    if col == Col::White {
        step(sq, 7) | step(sq, 9)
    } else {
        step(sq, -7) | step(sq, -9)
    }
}

/// The attack set of `piece` standing on `sq` under occupancy `occ`.
pub open spec fn attacks_spec(sq: int, piece: Piece, occ: u64) -> u64 {
    match piece.type_spec() {
        PieceType::Pawn => pawn_steps(piece.colour_spec(), sq),
        PieceType::Knight => knight_steps(sq),
        PieceType::King => king_steps(sq),
        PieceType::Rook => rook_rays(sq, occ),
        PieceType::Bishop => bishop_rays(sq, occ),
        PieceType::Queen => queen_rays(sq, occ),
    }
}

/// Walks one ray and returns exactly the squares the specification ray
/// attacks.
fn ray_walk(from: i32, delta: i32, occ: u64) -> (r: u64)
    requires
        0 <= from < 64,
        delta != 0,
        -17 <= delta <= 17,
    ensures
        r == ray(from as int, delta as int, occ),
    decreases (if delta > 0 {
        64 - from
    } else {
        from as int
    }),
{
    let to = from + delta;
    if to < 0 || to > 63 {
        return 0;
    }
    let fd = to % 8 - from % 8;
    if fd > 2 || fd < -2 {
        return 0;
    }
    let b = 1u64 << (to as u64);
    if occ & b != 0 {
        b
    } else {
        b | ray_walk(to, delta, occ)
    }
}

/// Computes one fixed step and returns exactly the specification step set.
fn step_walk(from: i32, delta: i32) -> (r: u64)
    requires
        0 <= from < 64,
        -17 <= delta <= 17,
    ensures
        r == step(from as int, delta as int),
{
    let to = from + delta;
    if to < 0 || to > 63 {
        return 0;
    }
    let fd = to % 8 - from % 8;
    if fd > 2 || fd < -2 {
        return 0;
    }
    1u64 << (to as u64)
}

/// The squares a pawn of colour `col` on `sq` attacks.
pub fn pawn_attacks(col: Col, sq: Square) -> (r: BitBoard)
    ensures
        r == pawn_steps(col, sq.idx()),
{
    let i = sq.index() as i32;
    match col {
        Col::White => step_walk(i, 7) | step_walk(i, 9),
        Col::Black => step_walk(i, -7) | step_walk(i, -9),
    }
}

/// The squares a knight on `sq` attacks.
pub fn knight_attacks(sq: Square) -> (r: BitBoard)
    ensures
        r == knight_steps(sq.idx()),
{
    let i = sq.index() as i32;
    step_walk(i, 17) | step_walk(i, 15) | step_walk(i, 10) | step_walk(i, 6) | step_walk(i, -17)
        | step_walk(i, -15) | step_walk(i, -10) | step_walk(i, -6)
}

/// The squares a king on `sq` attacks.
pub fn king_attacks(sq: Square) -> (r: BitBoard)
    ensures
        r == king_steps(sq.idx()),
{
    let i = sq.index() as i32;
    step_walk(i, 9) | step_walk(i, 8) | step_walk(i, 7) | step_walk(i, 1) | step_walk(i, -9)
        | step_walk(i, -8) | step_walk(i, -7) | step_walk(i, -1)
}

/// The squares a rook on `sq` attacks under the occupancy `occupied`.
pub fn rook_attacks(sq: Square, occupied: BitBoard) -> (r: BitBoard)
    ensures
        r == rook_rays(sq.idx(), occupied),
{
    let i = sq.index() as i32;
    ray_walk(i, 8, occupied) | ray_walk(i, 1, occupied) | ray_walk(i, -8, occupied) | ray_walk(
        i,
        -1,
        occupied,
    )
}

/// The squares a bishop on `sq` attacks under the occupancy `occupied`.
pub fn bishop_attacks(sq: Square, occupied: BitBoard) -> (r: BitBoard)
    ensures
        r == bishop_rays(sq.idx(), occupied),
{
    let i = sq.index() as i32;
    ray_walk(i, 9, occupied) | ray_walk(i, 7, occupied) | ray_walk(i, -9, occupied) | ray_walk(
        i,
        -7,
        occupied,
    )
}

/// The squares a queen on `sq` attacks under the occupancy `occupied`.
pub fn queen_attacks(sq: Square, occupied: BitBoard) -> (r: BitBoard)
    ensures
        r == queen_rays(sq.idx(), occupied),
        r == rook_rays(sq.idx(), occupied) | bishop_rays(sq.idx(), occupied),
{
    proof {
        crate::square::lemma_square_idx_bounds(sq);
        lemma_queen_rays_union(sq.idx(), occupied);
    }
    rook_attacks(sq, occupied) ^ bishop_attacks(sq, occupied)
}

/// The squares `piece` on `sq` attacks under the occupancy `occupied`.
pub fn attacks(sq: Square, piece: Piece, occupied: BitBoard) -> (r: BitBoard)
    ensures
        r == attacks_spec(sq.idx(), piece, occupied),
{
    match piece.piecetype() {
        PieceType::Pawn => pawn_attacks(piece.colour(), sq),
        PieceType::Knight => knight_attacks(sq),
        PieceType::King => king_attacks(sq),
        PieceType::Rook => rook_attacks(sq, occupied),
        PieceType::Bishop => bishop_attacks(sq, occupied),
        PieceType::Queen => queen_attacks(sq, occupied),
    }
}


/// A ray whose first step is valid attacks at least that first square.
proof fn lemma_ray_first_step(from: int, d: int, occ: u64)
    requires
        d != 0,
        valid_step(from, from + d),
    ensures
        ray(from, d, occ) != 0,
{
    let to = from + d;
    assert(0 <= to < 64);
    crate::bitboard::lemma_word_facts();
    let b = sq_bit(to);
    let rest = ray(to, d, occ);
    assert(b != 0 && (b | rest) != 0);
}

/// From every square the rook attacks at least one neighbouring square,
/// whatever the occupancy.
pub proof fn lemma_rook_rays_nonempty(sq: int, occ: u64)
    requires
        0 <= sq < 64,
    ensures
        rook_rays(sq, occ) != 0,
{
    vstd::arithmetic::div_mod::lemma_fundamental_div_mod(sq, 8);
    vstd::arithmetic::div_mod::lemma_mod_bound(sq, 8);
    if sq < 56 {
        vstd::arithmetic::div_mod::lemma_fundamental_div_mod_converse(sq + 8, 8, sq / 8 + 1, sq % 8);
        assert(valid_step(sq, sq + 8));
        lemma_ray_first_step(sq, 8, occ);
    } else {
        vstd::arithmetic::div_mod::lemma_fundamental_div_mod_converse(sq - 8, 8, sq / 8 - 1, sq % 8);
        assert(valid_step(sq, sq - 8));
        lemma_ray_first_step(sq, -8, occ);
    }
    crate::bitboard::lemma_word_facts();
    let a = ray(sq, 8, occ);
    let b = ray(sq, 1, occ);
    let c = ray(sq, -8, occ);
    let d = ray(sq, -1, occ);
    if a != 0 {
        assert((a | b) != 0 && ((a | b) | c) != 0 && (((a | b) | c) | d) != 0);
    } else {
        assert(((a | b) | c) == (c | (a | b)) && (c | (a | b)) != 0);
        assert((((a | b) | c) | d) != 0);
    }
}

/// From every square the bishop attacks at least one neighbouring square,
/// whatever the occupancy.
pub proof fn lemma_bishop_rays_nonempty(sq: int, occ: u64)
    requires
        0 <= sq < 64,
    ensures
        bishop_rays(sq, occ) != 0,
{
    vstd::arithmetic::div_mod::lemma_fundamental_div_mod(sq, 8);
    vstd::arithmetic::div_mod::lemma_mod_bound(sq, 8);
    if sq < 56 {
        if sq % 8 < 7 {
            vstd::arithmetic::div_mod::lemma_fundamental_div_mod_converse(
                sq + 9,
                8,
                sq / 8 + 1,
                sq % 8 + 1,
            );
            assert(valid_step(sq, sq + 9));
            lemma_ray_first_step(sq, 9, occ);
        } else {
            vstd::arithmetic::div_mod::lemma_fundamental_div_mod_converse(
                sq + 7,
                8,
                sq / 8 + 1,
                sq % 8 - 1,
            );
            assert(valid_step(sq, sq + 7));
            lemma_ray_first_step(sq, 7, occ);
        }
    } else {
        if sq % 8 < 7 {
            vstd::arithmetic::div_mod::lemma_fundamental_div_mod_converse(
                sq - 7,
                8,
                sq / 8 - 1,
                sq % 8 + 1,
            );
            assert(valid_step(sq, sq - 7));
            lemma_ray_first_step(sq, -7, occ);
        } else {
            vstd::arithmetic::div_mod::lemma_fundamental_div_mod_converse(
                sq - 9,
                8,
                sq / 8 - 1,
                sq % 8 - 1,
            );
            assert(valid_step(sq, sq - 9));
            lemma_ray_first_step(sq, -9, occ);
        }
    }
    crate::bitboard::lemma_word_facts();
    let a = ray(sq, 9, occ);
    let b = ray(sq, 7, occ);
    let c = ray(sq, -9, occ);
    let d = ray(sq, -7, occ);
    if a != 0 {
        assert((a | b) != 0);
    } else if b != 0 {
        assert((a | b) == (b | a) && (b | a) != 0);
    } else if c != 0 {
        assert(((a | b) | c) == (c | (a | b)) && (c | (a | b)) != 0);
    } else {
        assert((((a | b) | c) | d) == (d | ((a | b) | c)));
    }
    if a != 0 || b != 0 {
        assert(((a | b) | c) != 0);
    }
    assert((((a | b) | c) | d) != 0);
}


/// Every square of the upward ray shares the origin's file and lies on a higher rank.
proof fn lemma_ray_members_up(f: int, occ: u64)
    requires
        0 <= f < 64,
    ensures
        forall|i: int| #[trigger] has_bit(ray(f, 8, occ), i) ==> i % 8 == f % 8 && i / 8 > f / 8,
    decreases 64 - f,
{
    vstd::arithmetic::div_mod::lemma_fundamental_div_mod(f, 8);
    vstd::arithmetic::div_mod::lemma_mod_bound(f, 8);
    lemma_single_bit(0);
    let to = f + 8;
    if to < 64 {
        vstd::arithmetic::div_mod::lemma_fundamental_div_mod_converse(to, 8, f / 8 + 1, f % 8);
    }
    if valid_step(f, to) {
        lemma_single_bit(to);
        lemma_bit_ops(sq_bit(to), ray(to, 8, occ));
        if occ & sq_bit(to) == 0 {
            lemma_ray_members_up(to, occ);
        }
        assert forall|i: int| #[trigger] has_bit(ray(f, 8, occ), i) implies i % 8 == f % 8 && i / 8 > f / 8 by {
            if i != to {
                assert(has_bit(ray(to, 8, occ), i));
            }
        }
    }
}

/// Every square of the downward ray shares the origin's file and lies on a lower rank.
proof fn lemma_ray_members_down(f: int, occ: u64)
    requires
        0 <= f < 64,
    ensures
        forall|i: int| #[trigger] has_bit(ray(f, -8, occ), i) ==> i % 8 == f % 8 && i / 8 < f / 8,
    decreases f,
{
    vstd::arithmetic::div_mod::lemma_fundamental_div_mod(f, 8);
    vstd::arithmetic::div_mod::lemma_mod_bound(f, 8);
    lemma_single_bit(0);
    let to = f + -8;
    if to >= 0 {
        vstd::arithmetic::div_mod::lemma_fundamental_div_mod_converse(to, 8, f / 8 - 1, f % 8);
    }
    if valid_step(f, to) {
        lemma_single_bit(to);
        lemma_bit_ops(sq_bit(to), ray(to, -8, occ));
        if occ & sq_bit(to) == 0 {
            lemma_ray_members_down(to, occ);
        }
        assert forall|i: int| #[trigger] has_bit(ray(f, -8, occ), i) implies i % 8 == f % 8 && i / 8 < f / 8 by {
            if i != to {
                assert(has_bit(ray(to, -8, occ), i));
            }
        }
    }
}

/// Every square of the rightward ray shares the origin's rank and lies on a higher file.
proof fn lemma_ray_members_right(f: int, occ: u64)
    requires
        0 <= f < 64,
    ensures
        forall|i: int| #[trigger] has_bit(ray(f, 1, occ), i) ==> i / 8 == f / 8 && i % 8 > f % 8,
    decreases 64 - f,
{
    vstd::arithmetic::div_mod::lemma_fundamental_div_mod(f, 8);
    vstd::arithmetic::div_mod::lemma_mod_bound(f, 8);
    lemma_single_bit(0);
    let to = f + 1;
    if to < 64 {
        if f % 8 < 7 {
            vstd::arithmetic::div_mod::lemma_fundamental_div_mod_converse(to, 8, f / 8, f % 8 + 1);
        } else {
            vstd::arithmetic::div_mod::lemma_fundamental_div_mod_converse(to, 8, f / 8 + 1, 0);
        }
    }
    if valid_step(f, to) {
        lemma_single_bit(to);
        lemma_bit_ops(sq_bit(to), ray(to, 1, occ));
        if occ & sq_bit(to) == 0 {
            lemma_ray_members_right(to, occ);
        }
        assert forall|i: int| #[trigger] has_bit(ray(f, 1, occ), i) implies i / 8 == f / 8 && i % 8 > f % 8 by {
            if i != to {
                assert(has_bit(ray(to, 1, occ), i));
            }
        }
    }
}

/// Every square of the leftward ray shares the origin's rank and lies on a lower file.
proof fn lemma_ray_members_left(f: int, occ: u64)
    requires
        0 <= f < 64,
    ensures
        forall|i: int| #[trigger] has_bit(ray(f, -1, occ), i) ==> i / 8 == f / 8 && i % 8 < f % 8,
    decreases f,
{
    vstd::arithmetic::div_mod::lemma_fundamental_div_mod(f, 8);
    vstd::arithmetic::div_mod::lemma_mod_bound(f, 8);
    lemma_single_bit(0);
    let to = f + -1;
    if to >= 0 {
        if f % 8 > 0 {
            vstd::arithmetic::div_mod::lemma_fundamental_div_mod_converse(to, 8, f / 8, f % 8 - 1);
        } else {
            vstd::arithmetic::div_mod::lemma_fundamental_div_mod_converse(to, 8, f / 8 - 1, 7);
        }
    }
    if valid_step(f, to) {
        lemma_single_bit(to);
        lemma_bit_ops(sq_bit(to), ray(to, -1, occ));
        if occ & sq_bit(to) == 0 {
            lemma_ray_members_left(to, occ);
        }
        assert forall|i: int| #[trigger] has_bit(ray(f, -1, occ), i) implies i / 8 == f / 8 && i % 8 < f % 8 by {
            if i != to {
                assert(has_bit(ray(to, -1, occ), i));
            }
        }
    }
}

/// Every square of the up-right diagonal ray moves file and rank up in step.
proof fn lemma_ray_members_up_right(f: int, occ: u64)
    requires
        0 <= f < 64,
    ensures
        forall|i: int| #[trigger] has_bit(ray(f, 9, occ), i) ==> i % 8 - f % 8 == i / 8 - f / 8 && i % 8 > f % 8,
    decreases 64 - f,
{
    vstd::arithmetic::div_mod::lemma_fundamental_div_mod(f, 8);
    vstd::arithmetic::div_mod::lemma_mod_bound(f, 8);
    lemma_single_bit(0);
    let to = f + 9;
    if to < 64 {
        if f % 8 < 7 {
            vstd::arithmetic::div_mod::lemma_fundamental_div_mod_converse(to, 8, f / 8 + 1, f % 8 + 1);
        } else {
            vstd::arithmetic::div_mod::lemma_fundamental_div_mod_converse(to, 8, f / 8 + 2, 0);
        }
    }
    if valid_step(f, to) {
        lemma_single_bit(to);
        lemma_bit_ops(sq_bit(to), ray(to, 9, occ));
        if occ & sq_bit(to) == 0 {
            lemma_ray_members_up_right(to, occ);
        }
        assert forall|i: int| #[trigger] has_bit(ray(f, 9, occ), i) implies i % 8 - f % 8 == i / 8 - f / 8 && i % 8 > f % 8 by {
            if i != to {
                assert(has_bit(ray(to, 9, occ), i));
            }
        }
    }
}

/// Every square of the up-left diagonal ray moves the file down and the rank up in step.
proof fn lemma_ray_members_up_left(f: int, occ: u64)
    requires
        0 <= f < 64,
    ensures
        forall|i: int| #[trigger] has_bit(ray(f, 7, occ), i) ==> f % 8 - i % 8 == i / 8 - f / 8 && i % 8 < f % 8,
    decreases 64 - f,
{
    vstd::arithmetic::div_mod::lemma_fundamental_div_mod(f, 8);
    vstd::arithmetic::div_mod::lemma_mod_bound(f, 8);
    lemma_single_bit(0);
    let to = f + 7;
    if to < 64 {
        if f % 8 > 0 {
            vstd::arithmetic::div_mod::lemma_fundamental_div_mod_converse(to, 8, f / 8 + 1, f % 8 - 1);
        } else {
            vstd::arithmetic::div_mod::lemma_fundamental_div_mod_converse(to, 8, f / 8, 7);
        }
    }
    if valid_step(f, to) {
        lemma_single_bit(to);
        lemma_bit_ops(sq_bit(to), ray(to, 7, occ));
        if occ & sq_bit(to) == 0 {
            lemma_ray_members_up_left(to, occ);
        }
        assert forall|i: int| #[trigger] has_bit(ray(f, 7, occ), i) implies f % 8 - i % 8 == i / 8 - f / 8 && i % 8 < f % 8 by {
            if i != to {
                assert(has_bit(ray(to, 7, occ), i));
            }
        }
    }
}

/// Every square of the down-right diagonal ray moves the file up and the rank down in step.
proof fn lemma_ray_members_down_right(f: int, occ: u64)
    requires
        0 <= f < 64,
    ensures
        forall|i: int| #[trigger] has_bit(ray(f, -7, occ), i) ==> i % 8 - f % 8 == f / 8 - i / 8 && i % 8 > f % 8,
    decreases f,
{
    vstd::arithmetic::div_mod::lemma_fundamental_div_mod(f, 8);
    vstd::arithmetic::div_mod::lemma_mod_bound(f, 8);
    lemma_single_bit(0);
    let to = f + -7;
    if to >= 0 {
        if f % 8 < 7 {
            vstd::arithmetic::div_mod::lemma_fundamental_div_mod_converse(to, 8, f / 8 - 1, f % 8 + 1);
        } else {
            vstd::arithmetic::div_mod::lemma_fundamental_div_mod_converse(to, 8, f / 8, 0);
        }
    }
    if valid_step(f, to) {
        lemma_single_bit(to);
        lemma_bit_ops(sq_bit(to), ray(to, -7, occ));
        if occ & sq_bit(to) == 0 {
            lemma_ray_members_down_right(to, occ);
        }
        assert forall|i: int| #[trigger] has_bit(ray(f, -7, occ), i) implies i % 8 - f % 8 == f / 8 - i / 8 && i % 8 > f % 8 by {
            if i != to {
                assert(has_bit(ray(to, -7, occ), i));
            }
        }
    }
}

/// Every square of the down-left diagonal ray moves file and rank down in step.
proof fn lemma_ray_members_down_left(f: int, occ: u64)
    requires
        0 <= f < 64,
    ensures
        forall|i: int| #[trigger] has_bit(ray(f, -9, occ), i) ==> f % 8 - i % 8 == f / 8 - i / 8 && i % 8 < f % 8,
    decreases f,
{
    vstd::arithmetic::div_mod::lemma_fundamental_div_mod(f, 8);
    vstd::arithmetic::div_mod::lemma_mod_bound(f, 8);
    lemma_single_bit(0);
    let to = f + -9;
    if to >= 0 {
        if f % 8 > 0 {
            vstd::arithmetic::div_mod::lemma_fundamental_div_mod_converse(to, 8, f / 8 - 1, f % 8 - 1);
        } else {
            vstd::arithmetic::div_mod::lemma_fundamental_div_mod_converse(to, 8, f / 8 - 2, 7);
        }
    }
    if valid_step(f, to) {
        lemma_single_bit(to);
        lemma_bit_ops(sq_bit(to), ray(to, -9, occ));
        if occ & sq_bit(to) == 0 {
            lemma_ray_members_down_left(to, occ);
        }
        assert forall|i: int| #[trigger] has_bit(ray(f, -9, occ), i) implies f % 8 - i % 8 == f / 8 - i / 8 && i % 8 < f % 8 by {
            if i != to {
                assert(has_bit(ray(to, -9, occ), i));
            }
        }
    }
}

/// From one square, the rook's orthogonal rays and the bishop's diagonal
/// rays never attack a common square, whatever the occupancy.
pub proof fn lemma_rook_bishop_disjoint(sq: int, occ_r: u64, occ_b: u64)
    requires
        0 <= sq < 64,
    ensures
        rook_rays(sq, occ_r) & bishop_rays(sq, occ_b) == 0,
{
    lemma_ray_members_up(sq, occ_r);
    lemma_ray_members_down(sq, occ_r);
    lemma_ray_members_right(sq, occ_r);
    lemma_ray_members_left(sq, occ_r);
    lemma_ray_members_up_right(sq, occ_b);
    lemma_ray_members_up_left(sq, occ_b);
    lemma_ray_members_down_right(sq, occ_b);
    lemma_ray_members_down_left(sq, occ_b);
    let r8 = ray(sq, 8, occ_r);
    let r1 = ray(sq, 1, occ_r);
    let rm8 = ray(sq, -8, occ_r);
    let rm1 = ray(sq, -1, occ_r);
    let b9 = ray(sq, 9, occ_b);
    let b7 = ray(sq, 7, occ_b);
    let bm9 = ray(sq, -9, occ_b);
    let bm7 = ray(sq, -7, occ_b);
    lemma_bit_ops(r8, r1);
    lemma_bit_ops(r8 | r1, rm8);
    lemma_bit_ops(r8 | r1 | rm8, rm1);
    lemma_bit_ops(b9, b7);
    lemma_bit_ops(b9 | b7, bm9);
    lemma_bit_ops(b9 | b7 | bm9, bm7);
    lemma_bit_ops(rook_rays(sq, occ_r), bishop_rays(sq, occ_b));
    lemma_single_bit(0);
    assert forall|i: int| !has_bit(rook_rays(sq, occ_r) & bishop_rays(sq, occ_b), i) by {
        if has_bit(rook_rays(sq, occ_r), i) && has_bit(bishop_rays(sq, occ_b), i) {
            assert(has_bit(r8 | r1, i) || has_bit(rm8, i) || has_bit(rm1, i));
            assert(has_bit(b9 | b7, i) || has_bit(bm9, i) || has_bit(bm7, i));
        }
    }
    lemma_bit_ext(rook_rays(sq, occ_r) & bishop_rays(sq, occ_b), 0);
}

/// The queen's attack set is the union of the rook's and the bishop's:
/// the exclusive or in its definition combines two disjoint sets.
pub proof fn lemma_queen_rays_union(sq: int, occ: u64)
    requires
        0 <= sq < 64,
    ensures
        queen_rays(sq, occ) == rook_rays(sq, occ) | bishop_rays(sq, occ),
        rook_rays(sq, occ) & bishop_rays(sq, occ) == 0,
{
    lemma_rook_bishop_disjoint(sq, occ, occ);
    crate::bitboard::lemma_word_facts();
    let a = rook_rays(sq, occ);
    let b = bishop_rays(sq, occ);
    assert(a ^ b == (a | b));
}


} // verus!
