//! Bit-algebra on 64-bit square sets: membership, single-square updates,
//! one-step directional shifts with wraparound guards, lowest-bit scans, and
//! an iterator that yields the set squares in ascending index order.
//!
//! The specification model is [`has_bit`]: a bitboard denotes the set of
//! square indices `i` in `0..64` whose bit is set. Every operation's
//! contract characterises membership of the result in terms of membership
//! of the arguments.

use vstd::prelude::*;
use vstd::string::StringExecFns;

use crate::consts::BitBoard;
use crate::consts::Square;
use crate::consts::BB_FILE_A;
use crate::consts::BB_FILE_H;

verus! {


/// Stripping the lowest set bit of a non-empty word yields a smaller
/// word, no larger than the word minus one.
pub proof fn lemma_strip_low()
    by (bit_vector)
    ensures
        forall|m: u64| m != 0 ==> #[trigger] (m & (m - 1) as u64) < m,
        forall|m: u64| m != 0 ==> #[trigger] (m & (m - 1) as u64) <= (m - 1) as u64,
{
}

/// Small word-level algebra facts used throughout: commutativity, the
/// empty word, exclusive or of disjoint words, non-emptiness of unions
/// and one-bit masks, and the two membership encodings.
pub proof fn lemma_word_facts()
    by (bit_vector)
    ensures
        forall|a: u64, b: u64| #[trigger] (a & b) == (b & a),
        forall|a: u64, b: u64| #[trigger] (a | b) == (b | a),
        forall|a: u64| #[trigger] (a & 0) == 0,
        forall|a: u64| #[trigger] (a | 0) == a,
        forall|a: u64, b: u64| a & b == 0 ==> #[trigger] (a ^ b) == (a | b),
        forall|a: u64, b: u64| a ^ b == 0 ==> #[trigger] (a ^ b) == 0 && a == b,
        forall|a: u64, b: u64, c: u64| a & c == 0 && b & c == 0 ==> #[trigger] ((a | b) & c) == 0,
        forall|a: u64, b: u64| a != 0 ==> #[trigger] (a | b) != 0,
        forall|t: u64| t < 64 ==> #[trigger] (1u64 << t) != 0,
        forall|c: u64, t: u64| t < 64 ==> (((c >> t) & 1 == 1) == (#[trigger] (c & (1u64 << t))
            != 0)),
        forall|iu: u64, ju: u64|
            iu < 64 && ju < 64 ==> ((#[trigger] ((1u64 << ju) & (1u64 << iu))) != 0) == (iu == ju),
        forall|a: u64, b: u64| #[trigger] ((a & b) & b) == (a & b),
{
}

/// Square `i` is a member of the set `bb`.
pub open spec fn has_bit(bb: u64, i: int) -> bool {
    0 <= i < 64 && bb & (1u64 << (i as u64)) != 0
}

/// The number of set bits of `bb`.
pub open spec fn popcount(bb: u64) -> nat
    decreases bb,
{
    if bb == 0 {
        0
    } else {
        proof {
            lemma_strip_low();
        }
        1 + popcount(bb & (bb - 1) as u64)
    }
}

/// The index of the lowest set bit of `bb` (64 when `bb` is empty).
pub open spec fn lsb_index(bb: u64) -> int {
    vstd::std_specs::bits::u64_trailing_zeros(bb) as int
}

/// Two sets with the same members are the same word.
pub proof fn lemma_bit_ext(a: u64, b: u64)
    requires
        forall|i: int| has_bit(a, i) == has_bit(b, i),
    ensures
        a == b,
{
    let c = a ^ b;
    lemma_bit_ops(a, b);
    lemma_word_facts();
    if c != 0 {
        vstd::std_specs::bits::axiom_u64_trailing_zeros(c);
        let t = vstd::std_specs::bits::u64_trailing_zeros(c) as u64;
        assert(has_bit(c, t as int));
    }
}

/// Membership of a union, an intersection, an exclusive or, and a complement.
pub proof fn lemma_bit_ops(a: u64, b: u64)
    ensures
        forall|i: int| #[trigger] has_bit(a | b, i) == (has_bit(a, i) || has_bit(b, i)),
        forall|i: int| #[trigger] has_bit(a & b, i) == (has_bit(a, i) && has_bit(b, i)),
        forall|i: int| #[trigger] has_bit(a ^ b, i) == (has_bit(a, i) != has_bit(b, i)),
        forall|i: int| #[trigger] has_bit(a & !b, i) == (has_bit(a, i) && !has_bit(b, i)),
{
    assert forall|i: int| #![trigger 1u64 << (i as u64)] 0 <= i < 64 implies ((a | b) & (1u64 << (i as u64)) != 0) == ((a & (1u64
        << (i as u64)) != 0) || (b & (1u64 << (i as u64)) != 0)) && ((a & b) & (1u64 << (i as u64))
        != 0) == ((a & (1u64 << (i as u64)) != 0) && (b & (1u64 << (i as u64)) != 0)) && ((a ^ b)
        & (1u64 << (i as u64)) != 0) == ((a & (1u64 << (i as u64)) != 0) != (b & (1u64 << (i
        as u64)) != 0)) && ((a & !b) & (1u64 << (i as u64)) != 0) == ((a & (1u64 << (i as u64))
        != 0) && !(b & (1u64 << (i as u64)) != 0)) by {
        let iu = i as u64;
        assert(((a | b) & (1u64 << iu) != 0) == ((a & (1u64 << iu) != 0) || (b & (1u64 << iu)
            != 0)) && ((a & b) & (1u64 << iu) != 0) == ((a & (1u64 << iu) != 0) && (b & (1u64
            << iu) != 0)) && ((a ^ b) & (1u64 << iu) != 0) == ((a & (1u64 << iu) != 0) != (b
            & (1u64 << iu) != 0)) && ((a & !b) & (1u64 << iu) != 0) == ((a & (1u64 << iu) != 0)
            && !(b & (1u64 << iu) != 0))) by (bit_vector);
    }
    assert forall|i: int| #[trigger] has_bit(a | b, i) == (has_bit(a, i) || has_bit(b, i)) by {}
    assert forall|i: int| #[trigger] has_bit(a & b, i) == (has_bit(a, i) && has_bit(b, i)) by {}
    assert forall|i: int| #[trigger] has_bit(a ^ b, i) == (has_bit(a, i) != has_bit(b, i)) by {}
    assert forall|i: int| #[trigger] has_bit(a & !b, i) == (has_bit(a, i) && !has_bit(b, i)) by {}
}

/// A one-bit mask contains exactly its own index, and the empty word nothing.
pub proof fn lemma_single_bit(j: int)
    ensures
        forall|i: int| 0 <= j < 64 ==> #[trigger] has_bit(1u64 << (j as u64), i) == (i == j),
        forall|i: int| !has_bit(0u64, i),
{
    lemma_word_facts();
    assert forall|i: int| 0 <= j < 64 implies #[trigger] has_bit(1u64 << (j as u64), i) == (i
        == j) by {
        let ju = j as u64;
        if 0 <= i < 64 {
            let iu = i as u64;
            assert(((1u64 << ju) & (1u64 << iu) != 0) == (iu == ju));
        } else {
            assert(!has_bit(1u64 << ju, i));
        }
    }
    assert forall|i: int| !has_bit(0u64, i) by {
        if 0 <= i < 64 {
            let iu = i as u64;
            assert(0u64 & (1u64 << iu) == (1u64 << iu) & 0);
        }
    }
}

/// Every bit of `bb` is also a bit of `other`.
pub open spec fn subset_of(bb: u64, other: u64) -> bool {
    forall|i: int| has_bit(bb, i) ==> has_bit(other, i)
}

/// True iff every square of `other` is also in `bb`.
pub fn contains(bb: BitBoard, other: BitBoard) -> (r: bool)
    ensures
        r == ((bb & other) == other),
        r == subset_of(other, bb),
{
    proof {
        lemma_bit_ops(bb, other);
        if (bb & other) == other {
            assert forall|i: int| has_bit(other, i) implies has_bit(bb, i) by {
                assert(has_bit(bb & other, i));
            }
        } else {
            if subset_of(other, bb) {
                assert forall|i: int| has_bit(bb & other, i) == has_bit(other, i) by {}
                lemma_bit_ext(bb & other, other);
            }
        }
    }
    (bb & other) == other
}

/// True iff `square` is a member of `bb`.
pub fn contains_square(bb: BitBoard, square: Square) -> (r: bool)
    ensures
        r == has_bit(bb, square.idx()),
{
    let mask = 1u64 << square.index() as u64;
    (bb & mask) != 0
}

/// `bb` with `square` added.
pub fn add_square(bb: BitBoard, square: Square) -> (r: BitBoard)
    ensures
        r == bb | (1u64 << (square.idx() as u64)),
        forall|i: int| #[trigger] has_bit(r, i) == (has_bit(bb, i) || i == square.idx()),
{
    let mask = 1u64 << square.index() as u64;
    proof {
        lemma_bit_ops(bb, mask);
        lemma_single_bit(square.idx());
    }
    bb | mask
}

/// `bb` with `square` removed.
pub fn remove_square(bb: BitBoard, square: Square) -> (r: BitBoard)
    ensures
        r == bb & !(1u64 << (square.idx() as u64)),
        forall|i: int| #[trigger] has_bit(r, i) == (has_bit(bb, i) && i != square.idx()),
{
    let mask = !(1u64 << square.index() as u64);
    proof {
        lemma_bit_ops(bb, 1u64 << (square.idx() as u64));
        lemma_single_bit(square.idx());
    }
    bb & mask
}

/// `bb` with membership of `square` flipped.
pub fn toggle_square(bb: BitBoard, square: Square) -> (r: BitBoard)
    ensures
        r == bb ^ (1u64 << (square.idx() as u64)),
        forall|i: int| #[trigger] has_bit(r, i) == (has_bit(bb, i) != (i == square.idx())),
{
    let mask = 1u64 << square.index() as u64;
    proof {
        lemma_bit_ops(bb, mask);
        lemma_single_bit(square.idx());
    }
    bb ^ mask
}

/// The one-square set holding exactly `square`.
pub fn from_square(square: Square) -> (r: BitBoard)
    ensures
        r == 1u64 << (square.idx() as u64),
        forall|i: int| #[trigger] has_bit(r, i) == (i == square.idx()),
{
    proof {
        lemma_single_bit(square.idx());
    }
    1u64 << square.index() as u64
}


/// Membership of each one-step shift, bit by bit: the guard masks keep
/// a shift from wrapping a square across the A/H file edge.
proof fn lemma_shift_members(bb: u64)
    by (bit_vector)
    ensures
        forall|iu: u64|
            #![trigger (bb << 8u64) & (1u64 << iu)]
            iu < 64 ==> (((bb << 8u64) & (1u64 << iu)) != 0) == (iu >= 8 && (bb & (1u64 << ((iu
                - 8) as u64)) != 0)),
        forall|iu: u64|
            #![trigger (bb >> 8u64) & (1u64 << iu)]
            iu < 64 ==> (((bb >> 8u64) & (1u64 << iu)) != 0) == (iu + 8 < 64 && (bb & (1u64 << ((iu
                + 8) as u64)) != 0)),
        forall|iu: u64|
            #![trigger ((bb << 1u64) & !BB_FILE_A) & (1u64 << iu)]
            iu < 64 ==> ((((bb << 1u64) & !BB_FILE_A) & (1u64 << iu)) != 0) == (iu % 8 != 0 && iu
                >= 1 && (bb & (1u64 << ((iu - 1) as u64)) != 0)),
        forall|iu: u64|
            #![trigger ((bb >> 1u64) & !BB_FILE_H) & (1u64 << iu)]
            iu < 64 ==> ((((bb >> 1u64) & !BB_FILE_H) & (1u64 << iu)) != 0) == (iu % 8 != 7 && iu
                + 1 < 64 && (bb & (1u64 << ((iu + 1) as u64)) != 0)),
        forall|iu: u64|
            #![trigger ((bb << 9u64) & !BB_FILE_A) & (1u64 << iu)]
            iu < 64 ==> ((((bb << 9u64) & !BB_FILE_A) & (1u64 << iu)) != 0) == (iu % 8 != 0 && iu
                >= 9 && (bb & (1u64 << ((iu - 9) as u64)) != 0)),
        forall|iu: u64|
            #![trigger ((bb << 7u64) & !BB_FILE_H) & (1u64 << iu)]
            iu < 64 ==> ((((bb << 7u64) & !BB_FILE_H) & (1u64 << iu)) != 0) == (iu % 8 != 7 && iu
                >= 7 && (bb & (1u64 << ((iu - 7) as u64)) != 0)),
        forall|iu: u64|
            #![trigger ((bb >> 7u64) & !BB_FILE_A) & (1u64 << iu)]
            iu < 64 ==> ((((bb >> 7u64) & !BB_FILE_A) & (1u64 << iu)) != 0) == (iu % 8 != 0 && iu
                + 7 < 64 && (bb & (1u64 << ((iu + 7) as u64)) != 0)),
        forall|iu: u64|
            #![trigger ((bb >> 9u64) & !BB_FILE_H) & (1u64 << iu)]
            iu < 64 ==> ((((bb >> 9u64) & !BB_FILE_H) & (1u64 << iu)) != 0) == (iu % 8 != 7 && iu
                + 9 < 64 && (bb & (1u64 << ((iu + 9) as u64)) != 0)),
{
}

/// One step toward rank eight: each square moves up one rank.
pub fn north_one(bb: BitBoard) -> (r: BitBoard)
    ensures
        r == bb << 8,
        forall|i: int| #[trigger] has_bit(r, i) == (0 <= i < 64 && has_bit(bb, i - 8)),
{
    proof {
        assert forall|i: int| #[trigger] has_bit(bb << 8, i) == (0 <= i < 64 && has_bit(
            bb,
            i - 8,
        )) by {
            if 0 <= i < 64 {
                let iu = i as u64;
                lemma_shift_members(bb);
                assert(((bb << 8) & (1u64 << iu) != 0) == (iu >= 8 && bb & (1u64 << ((iu - 8) as u64)) != 0));
            if i >= 8 {
                assert((i - 8) as u64 == (iu - 8) as u64);
            }
            }
        }
    }
    bb << 8
}

/// One step toward rank one: each square moves down one rank.
pub fn south_one(bb: BitBoard) -> (r: BitBoard)
    ensures
        r == bb >> 8,
        forall|i: int| #[trigger] has_bit(r, i) == (0 <= i < 64 && has_bit(bb, i + 8)),
{
    proof {
        assert forall|i: int| #[trigger] has_bit(bb >> 8, i) == (0 <= i < 64 && has_bit(
            bb,
            i + 8,
        )) by {
            if 0 <= i < 64 {
                let iu = i as u64;
                lemma_shift_members(bb);
                assert(((bb >> 8) & (1u64 << iu) != 0) == (iu + 8 < 64 && bb & (1u64 << ((iu + 8) as u64)) != 0));
            if i + 8 < 64 {
                assert((i + 8) as u64 == (iu + 8) as u64);
            }
            }
        }
    }
    bb >> 8
}

/// One step toward file H; squares on file H fall off rather than wrap to file A.
pub fn east_one(bb: BitBoard) -> (r: BitBoard)
    ensures
        r == (bb << 1) & !BB_FILE_A,
        forall|i: int| #[trigger] has_bit(r, i) == (0 <= i < 64 && i % 8 != 0 && has_bit(bb, i - 1)),
{
    proof {
        assert forall|i: int| #[trigger] has_bit((bb << 1) & !BB_FILE_A, i) == (0 <= i < 64 && i % 8 != 0 && has_bit(
            bb,
            i - 1,
        )) by {
            if 0 <= i < 64 {
                let iu = i as u64;
                lemma_shift_members(bb);
                assert((((bb << 1) & !BB_FILE_A) & (1u64 << iu) != 0) == (iu % 8 != 0 && iu >= 1 && bb & (1u64 << ((iu - 1) as u64)) != 0));
            if i >= 1 {
                assert((i - 1) as u64 == (iu - 1) as u64);
            }
            }
        }
    }
    (bb << 1) & !BB_FILE_A
}

/// One step toward file A; squares on file A fall off rather than wrap to file H.
pub fn west_one(bb: BitBoard) -> (r: BitBoard)
    ensures
        r == (bb >> 1) & !BB_FILE_H,
        forall|i: int| #[trigger] has_bit(r, i) == (0 <= i < 64 && i % 8 != 7 && has_bit(bb, i + 1)),
{
    proof {
        assert forall|i: int| #[trigger] has_bit((bb >> 1) & !BB_FILE_H, i) == (0 <= i < 64 && i % 8 != 7 && has_bit(
            bb,
            i + 1,
        )) by {
            if 0 <= i < 64 {
                let iu = i as u64;
                lemma_shift_members(bb);
                assert((((bb >> 1) & !BB_FILE_H) & (1u64 << iu) != 0) == (iu % 8 != 7 && iu + 1 < 64 && bb & (1u64 << ((iu + 1) as u64)) != 0));
            if i + 1 < 64 {
                assert((i + 1) as u64 == (iu + 1) as u64);
            }
            }
        }
    }
    (bb >> 1) & !BB_FILE_H
}

/// One step up-right; squares on file H fall off rather than wrap to file A.
pub fn north_east_one(bb: BitBoard) -> (r: BitBoard)
    ensures
        r == (bb << 9) & !BB_FILE_A,
        forall|i: int| #[trigger] has_bit(r, i) == (0 <= i < 64 && i % 8 != 0 && has_bit(bb, i - 9)),
{
    proof {
        assert forall|i: int| #[trigger] has_bit((bb << 9) & !BB_FILE_A, i) == (0 <= i < 64 && i % 8 != 0 && has_bit(
            bb,
            i - 9,
        )) by {
            if 0 <= i < 64 {
                let iu = i as u64;
                lemma_shift_members(bb);
                assert((((bb << 9) & !BB_FILE_A) & (1u64 << iu) != 0) == (iu % 8 != 0 && iu >= 9 && bb & (1u64 << ((iu - 9) as u64)) != 0));
            if i >= 9 {
                assert((i - 9) as u64 == (iu - 9) as u64);
            }
            }
        }
    }
    (bb << 9) & !BB_FILE_A
}

/// One step up-left; squares on file A fall off rather than wrap to file H.
pub fn north_west_one(bb: BitBoard) -> (r: BitBoard)
    ensures
        r == (bb << 7) & !BB_FILE_H,
        forall|i: int| #[trigger] has_bit(r, i) == (0 <= i < 64 && i % 8 != 7 && has_bit(bb, i - 7)),
{
    proof {
        assert forall|i: int| #[trigger] has_bit((bb << 7) & !BB_FILE_H, i) == (0 <= i < 64 && i % 8 != 7 && has_bit(
            bb,
            i - 7,
        )) by {
            if 0 <= i < 64 {
                let iu = i as u64;
                lemma_shift_members(bb);
                assert((((bb << 7) & !BB_FILE_H) & (1u64 << iu) != 0) == (iu % 8 != 7 && iu >= 7 && bb & (1u64 << ((iu - 7) as u64)) != 0));
            if i >= 7 {
                assert((i - 7) as u64 == (iu - 7) as u64);
            }
            }
        }
    }
    (bb << 7) & !BB_FILE_H
}

/// One step down-right; squares on file H fall off rather than wrap to file A.
pub fn south_east_one(bb: BitBoard) -> (r: BitBoard)
    ensures
        r == (bb >> 7) & !BB_FILE_A,
        forall|i: int| #[trigger] has_bit(r, i) == (0 <= i < 64 && i % 8 != 0 && has_bit(bb, i + 7)),
{
    proof {
        assert forall|i: int| #[trigger] has_bit((bb >> 7) & !BB_FILE_A, i) == (0 <= i < 64 && i % 8 != 0 && has_bit(
            bb,
            i + 7,
        )) by {
            if 0 <= i < 64 {
                let iu = i as u64;
                lemma_shift_members(bb);
                assert((((bb >> 7) & !BB_FILE_A) & (1u64 << iu) != 0) == (iu % 8 != 0 && iu + 7 < 64 && bb & (1u64 << ((iu + 7) as u64)) != 0));
            if i + 7 < 64 {
                assert((i + 7) as u64 == (iu + 7) as u64);
            }
            }
        }
    }
    (bb >> 7) & !BB_FILE_A
}

/// One step down-left; squares on file A fall off rather than wrap to file H.
pub fn south_west_one(bb: BitBoard) -> (r: BitBoard)
    ensures
        r == (bb >> 9) & !BB_FILE_H,
        forall|i: int| #[trigger] has_bit(r, i) == (0 <= i < 64 && i % 8 != 7 && has_bit(bb, i + 9)),
{
    proof {
        assert forall|i: int| #[trigger] has_bit((bb >> 9) & !BB_FILE_H, i) == (0 <= i < 64 && i % 8 != 7 && has_bit(
            bb,
            i + 9,
        )) by {
            if 0 <= i < 64 {
                let iu = i as u64;
                lemma_shift_members(bb);
                assert((((bb >> 9) & !BB_FILE_H) & (1u64 << iu) != 0) == (iu % 8 != 7 && iu + 9 < 64 && bb & (1u64 << ((iu + 9) as u64)) != 0));
            if i + 9 < 64 {
                assert((i + 9) as u64 == (iu + 9) as u64);
            }
            }
        }
    }
    (bb >> 9) & !BB_FILE_H
}

/// The two or three characters of cell `j` of the printed grid: the
/// membership digit of its square, a space, and a newline at the end of
/// each row. Cell `j` shows the square on rank `7 - j / 8` and file
/// `j % 8`, so the top row reads rank eight from file A to file H.
pub open spec fn cell_chars(bb: u64, j: int) -> Seq<char> {
    let c = if has_bit(bb, 56 - 8 * (j / 8) + j % 8) {
        "1 "@
    } else {
        "0 "@
    };
    if j % 8 == 7 {
        c + "\n"@
    } else {
        c
    }
}

/// The characters of the printed grid from cell `j` on.
pub open spec fn grid_chars(bb: u64, j: int) -> Seq<char>
    decreases 64 - j,
{
    if j < 0 || j >= 64 {
        Seq::empty()
    } else {
        cell_chars(bb, j) + grid_chars(bb, j + 1)
    }
}

/// Renders the set as an 8-by-8 grid of `0` and `1` digits, one row per
/// rank from rank eight down to rank one, files A to H left to right.
pub fn to_string(bb: BitBoard) -> (r: String)
    ensures
        r@ == grid_chars(bb, 0),
{
    let mut s = String::new();
    proof {
        assert(Seq::<char>::empty() + grid_chars(bb, 0) =~= grid_chars(bb, 0));
    }
    let mut j: usize = 0;
    while j < 64
        invariant
            j <= 64,
            s@ + grid_chars(bb, j as int) == grid_chars(bb, 0),
        decreases 64 - j,
    {
        let ghost s0 = s@;
        let ghost jj = j as int;
        let rank = j / 8;
        let file_from_left = j % 8;
        let idx = 56 - 8 * rank + file_from_left;
        let mask = 1u64 << (idx as u64);
        if bb & mask != 0 {
            s.append("1 ");
        } else {
            s.append("0 ");
        }
        if j % 8 == 7 {
            s.append("\n");
        }
        proof {
            assert(s@ =~= s0 + cell_chars(bb, jj));
            assert((s0 + cell_chars(bb, jj)) + grid_chars(bb, jj + 1) =~= s0 + (cell_chars(
                bb,
                jj,
            ) + grid_chars(bb, jj + 1)));
            assert(cell_chars(bb, jj) + grid_chars(bb, jj + 1) == grid_chars(bb, jj));
        }
        j = j + 1;
    }
    proof {
        assert(grid_chars(bb, 64) =~= Seq::<char>::empty());
        assert(s@ + Seq::<char>::empty() =~= s@);
    }
    s
}

/// The lowest set bit of a non-empty set is a member below all other
/// members.
pub proof fn lemma_lsb_facts(bb: u64)
    requires
        bb != 0,
    ensures
        0 <= lsb_index(bb) < 64,
        has_bit(bb, lsb_index(bb)),
        forall|i: int| i < lsb_index(bb) ==> !has_bit(bb, i),
{
    vstd::std_specs::bits::axiom_u64_trailing_zeros(bb);
    lemma_word_facts();
    let t = vstd::std_specs::bits::u64_trailing_zeros(bb) as u64;
    assert(bb & (1u64 << t) != 0);
    assert forall|i: int| i < lsb_index(bb) implies !has_bit(bb, i) by {
        if 0 <= i {
            let iu = i as u64;
            assert((bb >> iu) & 1 == 0);
        }
    }
}

/// The square of the lowest set bit, or `A1` for the empty set.
pub fn first(bb: BitBoard) -> (r: Square)
    ensures
        bb == 0 ==> r == Square::A1,
        bb != 0 ==> r.idx() == lsb_index(bb) && has_bit(bb, r.idx()) && (forall|i: int| i
            < r.idx() ==> !has_bit(bb, i)),
{
    if bb == 0 {
        return Square::A1;
    }
    proof {
        lemma_lsb_facts(bb);
    }
    let t = bb.trailing_zeros();
    Square::new_unchecked(t as u8)
}

/// The set holding only the lowest square of `bb`, or the empty set.
pub fn isolate_lsb(bb: BitBoard) -> (r: BitBoard)
    ensures
        bb == 0 ==> r == 0,
        bb != 0 ==> forall|i: int| #[trigger] has_bit(r, i) == (i == lsb_index(bb)),
{
    let neg = 0u64.wrapping_sub(bb);
    proof {
        lemma_word_facts();
        assert(bb == 0 ==> bb & neg == neg & 0);
        if bb != 0 {
            lemma_lsb_facts(bb);
            vstd::std_specs::bits::axiom_u64_trailing_zeros(bb);
            let t = vstd::std_specs::bits::u64_trailing_zeros(bb) as u64;
            assert(neg + bb == 0x1_0000_0000_0000_0000);
            assert(t < 64 && (bb >> t) & 1 == 1 && (bb << ((64 - t) as u64)) == 0 && neg + bb
                == 0x1_0000_0000_0000_0000 ==> bb & neg == (1u64 << t)) by (bit_vector);
            lemma_single_bit(t as int);
        }
    }
    bb & neg
}

/// `bb` with its lowest square removed, or the empty set.
pub fn without_lsb(bb: BitBoard) -> (r: BitBoard)
    ensures
        bb == 0 ==> r == 0,
        bb != 0 ==> r == (bb & (bb - 1) as u64) && popcount(r) == popcount(bb) - 1 && (forall|
            i: int,
        | #[trigger] has_bit(r, i) == (has_bit(bb, i) && i != lsb_index(bb))),
{
    let prev = bb.wrapping_sub(1);
    proof {
        lemma_word_facts();
        assert(bb == 0 ==> bb & prev == prev & 0);
        if bb != 0 {
            lemma_lsb_facts(bb);
            vstd::std_specs::bits::axiom_u64_trailing_zeros(bb);
            let t = vstd::std_specs::bits::u64_trailing_zeros(bb) as u64;
            assert(popcount(bb) == 1 + popcount(bb & (bb - 1) as u64));
            assert forall|i: int| #[trigger] has_bit(bb & (bb - 1) as u64, i) == (has_bit(bb, i)
                && i != lsb_index(bb)) by {
                if 0 <= i < 64 {
                    let iu = i as u64;
                    assert(t < 64 && (bb >> t) & 1 == 1 && (bb << ((64 - t) as u64)) == 0 && iu
                        < 64 ==> ((bb & (bb - 1) as u64) & (1u64 << iu) != 0) == (bb & (1u64
                        << iu) != 0 && iu != t)) by (bit_vector);
                }
            }
        }
    }
    bb & prev
}

/// True iff `bb` holds exactly one square.
pub fn one(bb: BitBoard) -> (r: bool)
    ensures
        r == (popcount(bb) == 1),
{
    if bb == 0 {
        return false;
    }
    proof {
        let rest = bb & (bb - 1) as u64;
        assert(popcount(bb) == 1 + popcount(rest));
        if rest != 0 {
            assert(popcount(rest) == 1 + popcount(rest & (rest - 1) as u64));
        }
    }
    bb & (bb - 1) == 0
}

/// True iff `bb` holds more than one square.
pub fn many(bb: BitBoard) -> (r: bool)
    ensures
        r == (popcount(bb) >= 2),
{
    if bb == 0 {
        return false;
    }
    proof {
        let rest = bb & (bb - 1) as u64;
        assert(popcount(bb) == 1 + popcount(rest));
        if rest != 0 {
            assert(popcount(rest) == 1 + popcount(rest & (rest - 1) as u64));
        }
    }
    bb & (bb - 1) != 0
}

/// An iterator over the squares of a set, in ascending index order. The
/// field holds the squares not yet returned.
pub struct SquareIter(pub u64);

impl SquareIter {
    /// An iterator over the squares of `value`.
    pub fn new(value: u64) -> (r: SquareIter)
        ensures
            r.0 == value,
    {
        SquareIter(value)
    }

    /// The lowest remaining square, removed from the set, or `None` once
    /// the set is exhausted.
    pub fn next(&mut self) -> (r: Option<Square>)
        ensures
            old(self).0 == 0 ==> r is None && final(self).0 == 0,
            old(self).0 != 0 ==> (r matches Some(sq) && sq.idx() == lsb_index(old(self).0)
                && has_bit(old(self).0, sq.idx())) && (forall|i: int| #[trigger] has_bit(
                final(self).0,
                i,
            ) == (has_bit(old(self).0, i) && i != lsb_index(old(self).0))),
    {
        if self.0 == 0 {
            None
        } else {
            proof {
                lemma_lsb_facts(self.0);
            }
            let lsb = self.0.trailing_zeros() as u8;
            self.0 = without_lsb(self.0);
            Some(Square::new_unchecked(lsb))
        }
    }
}

/// An iterator over the squares of `bb`, in ascending index order.
pub fn iter(bb: BitBoard) -> (r: SquareIter)
    ensures
        r.0 == bb,
{
    SquareIter::new(bb)
}
} // verus!
