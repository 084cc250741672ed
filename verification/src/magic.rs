//! Magic perfect-hash tables for sliding-piece attacks.
//!
//! For each square and each of the two sliding families, a fixed `Magic`
//! entry carries a relevant-occupancy `mask`, a multiplier `factor` and a
//! table `offset`. The occupancy restricted to the mask, multiplied by the
//! factor and shifted, indexes one shared flat table of attack sets. The
//! constants were solved offline; [`bootstrap_magics`] re-derives every
//! table entry from the ray-walk ground truth and checks, exhaustively
//! over all occupancy subsets of every mask, that no two subsets collide
//! on an index with different attack sets. The tables it returns therefore
//! answer every masked query with exactly the specification ray set.

use vstd::prelude::*;

use crate::attacks::bishop_rays;
use crate::attacks::rook_rays;
use crate::bitboard::popcount;
use crate::consts::Magic;
use crate::consts::Square;

verus! {

/// The number of entries of the shared attack table.
pub const ATTACK_TABLE_LEN: usize = 88772;

/// Rook indices take the top 12 bits of the magic product.
pub const ROOK_SHIFT: u64 = 52;

/// Bishop indices take the top 9 bits of the magic product.
pub const BISHOP_SHIFT: u64 = 55;

/// The attack-table index of the rook entry for square `sq` under the
/// occupancy subset `subset`.
pub open spec fn rook_index(sq: int, subset: u64) -> int {
    ((rook_factor(sq).wrapping_mul(subset)) >> ROOK_SHIFT) + rook_offset(sq)
}

/// The attack-table index of the bishop entry for square `sq` under the
/// occupancy subset `subset`.
pub open spec fn bishop_index(sq: int, subset: u64) -> int {
    ((bishop_factor(sq).wrapping_mul(subset)) >> BISHOP_SHIFT) + bishop_offset(sq)
}

/// The value `k` spread over the set bits of `m`, lowest bit first: bit
/// `j` of `k` decides membership of the `j`-th lowest set bit of `m`.
/// As `k` runs over `0..pow2(popcount(m))`, the result runs over every
/// subset of `m`.
pub open spec fn deposit(k: u64, m: u64) -> u64
    decreases m,
{
    if m == 0 {
        0
    } else {
        proof {
            crate::bitboard::lemma_strip_low();
        }
        let rest = m & (m - 1) as u64;
        let low = m & !rest;
        if k & 1 == 1 {
            low | deposit(k >> 1, rest)
        } else {
            deposit(k >> 1, rest)
        }
    }
}

/// The inverse of [`deposit`] for subsets `s` of `m`: the compressed
/// number whose bits are the memberships of the set bits of `m` in `s`.
pub open spec fn extract(s: u64, m: u64) -> u64
    decreases m,
{
    if m == 0 {
        0
    } else {
        proof {
            crate::bitboard::lemma_strip_low();
        }
        let rest = m & (m - 1) as u64;
        let low = m & !rest;
        let hi = extract(s & rest, rest);
        if s & low != 0 {
            (2 * hi + 1) as u64
        } else {
            (2 * hi) as u64
        }
    }
}

/// Stripping the lowest set bit lowers the count by one; the count of a
/// word never exceeds its value.
proof fn lemma_popcount_le(m: u64)
    ensures
        popcount(m) <= m,
    decreases m,
{
    if m != 0 {
        crate::bitboard::lemma_strip_low();
        lemma_popcount_le(m & (m - 1) as u64);
    }
}

/// Doubling a word keeps its bit count.
proof fn lemma_popcount_double(x: u64)
    requires
        x < 0x8000_0000_0000_0000,
    ensures
        popcount((2 * x) as u64) == popcount(x),
    decreases x,
{
    if x != 0 {
        let y = (2 * x) as u64;
        assert(x != 0 && x < 0x8000_0000_0000_0000 && y == (2 * x) as u64 ==> y != 0 && (y & (y
            - 1) as u64) == (2 * ((x & (x - 1) as u64)) as int) as u64 && (x & (x - 1) as u64)
            < 0x8000_0000_0000_0000) by (bit_vector);
        crate::bitboard::lemma_strip_low();
        lemma_popcount_double(x & (x - 1) as u64);
    }
}

/// A word below `pow2(w)` has at most `w` set bits.
proof fn lemma_popcount_width(m: u64, w: nat)
    requires
        w <= 64,
        m < vstd::arithmetic::power2::pow2(w),
    ensures
        popcount(m) <= w,
    decreases m,
{
    vstd::arithmetic::power2::lemma2_to64();
    if m != 0 {
        let h = m >> 1u64;
        assert(m != 0 ==> (m >> 1u64) < m && (m >> 1u64) < 0x8000_0000_0000_0000 && m == (2 * (m
            >> 1u64) + (m & 1)) as u64 && (m & 1) <= 1) by (bit_vector);
        if w == 0 {
            assert(false);
        }
        vstd::arithmetic::power2::lemma_pow2_unfold(w);
        assert(h < vstd::arithmetic::power2::pow2((w - 1) as nat));
        lemma_popcount_width(h, (w - 1) as nat);
        lemma_popcount_double(h);
        if m & 1 == 1 {
            let e = (2 * h) as u64;
            assert(m != 0 && m & 1 == 1 && h == m >> 1u64 && e == (2 * (m >> 1u64)) as u64 ==> m
                == (e + 1) as u64 && e & 1 == 0 && m & (m - 1) as u64 == e) by (bit_vector);
            assert(popcount(m) == 1 + popcount(e));
        } else {
            assert(m != 0 && m & 1 != 1 && h == m >> 1u64 ==> m == (2 * (m >> 1u64)) as u64)
                by (bit_vector);
            assert(popcount(m) == popcount((2 * h) as u64));
        }
    }
}

/// Every word has at most 64 set bits.
proof fn lemma_popcount_le_64(m: u64)
    ensures
        popcount(m) <= 64,
{
    vstd::arithmetic::power2::lemma2_to64();
    assert(m < 0x1_0000_0000_0000_0000);
    lemma_popcount_width(m, 64);
}

/// What `deposit` builds is a subset of the mask.
proof fn lemma_deposit_subset(k: u64, m: u64)
    ensures
        deposit(k, m) & m == deposit(k, m),
    decreases m,
{
    crate::bitboard::lemma_word_facts();
    if m == 0 {
        assert(deposit(k, 0) == 0 && (0u64 & 0) == 0);
    } else {
        crate::bitboard::lemma_strip_low();
        let rest = m & (m - 1) as u64;
        let low = m & !rest;
        lemma_deposit_subset(k >> 1u64, rest);
        let d = deposit(k >> 1u64, rest);
        assert(rest == m & (m - 1) as u64 && low == m & !rest && d & rest == d ==> ((low | d) & m
            == (low | d)) && (d & m == d)) by (bit_vector);
    }
}

/// Compressing a subset of `m` and spreading it again restores the
/// subset, and the compressed number lies below `pow2(popcount(m))`.
proof fn lemma_deposit_extract(s: u64, m: u64)
    requires
        s & m == s,
    ensures
        extract(s, m) < vstd::arithmetic::power2::pow2(popcount(m)),
        deposit(extract(s, m), m) == s,
    decreases m,
{
    vstd::arithmetic::power2::lemma_pow2_pos(popcount(m));
    crate::bitboard::lemma_word_facts();
    if m == 0 {
        assert(s & 0 == 0);
        assert(extract(s, 0) == 0 && deposit(0, 0) == 0);
    } else {
        crate::bitboard::lemma_strip_low();
        let rest = m & (m - 1) as u64;
        let low = m & !rest;
        let sp = s & rest;
        assert((s & rest) & rest == (s & rest));
        lemma_deposit_extract(sp, rest);
        let hi = extract(sp, rest);
        lemma_popcount_le_64(rest);
        vstd::arithmetic::power2::lemma2_to64();
        vstd::arithmetic::power2::lemma2_to64_rest();
        assert(vstd::arithmetic::power2::pow2(popcount(rest)) <= vstd::arithmetic::power2::pow2(
            64,
        )) by {
            if popcount(rest) < 64 {
                vstd::arithmetic::power2::lemma_pow2_strictly_increases(popcount(rest), 64);
            }
        }
        assert(popcount(m) == 1 + popcount(rest));
        vstd::arithmetic::power2::lemma_pow2_unfold(popcount(m));
        // The count of `rest` stays below 64, so doubling `hi` cannot
        // truncate: stripping the lowest bit of `m` lowers its count.
        assert(popcount(rest) <= 63) by {
            lemma_popcount_le_64(m);
            assert(popcount(m) == 1 + popcount(rest));
        }
        assert(vstd::arithmetic::power2::pow2(popcount(rest)) <= vstd::arithmetic::power2::pow2(
            63,
        )) by {
            if popcount(rest) < 63 {
                vstd::arithmetic::power2::lemma_pow2_strictly_increases(popcount(rest), 63);
            }
        }
        let e = extract(s, m);
        let b: u64 = if s & low != 0 {
            1
        } else {
            0
        };
        assert(e == (2 * hi + b) as u64);
        assert(2 * hi + b < 2 * vstd::arithmetic::power2::pow2(popcount(rest)));
        assert(e == 2 * hi + b);
        assert(e < vstd::arithmetic::power2::pow2(popcount(m)));
        // Unfold deposit at e: its low bit is b and its upper bits are hi.
        assert(hi < 0x8000_0000_0000_0000 && b <= 1 && e == (2 * hi + b) as u64 ==> (e & 1 == b)
            && (e >> 1u64 == hi)) by (bit_vector);
        lemma_deposit_subset(hi, rest);
        assert(deposit(e, m) == if b == 1 {
            low | deposit(hi, rest)
        } else {
            deposit(hi, rest)
        });
        assert(rest == m & (m - 1) as u64 && low == m & !rest && s & m == s && sp == s & rest ==> (
        (s & low != 0 ==> s == (low | sp)) && (s & low == 0 ==> s == sp))) by (bit_vector);
    }
}

/// Counts the set bits of `m` by repeatedly clearing the lowest one.
fn count_bits(m: u64) -> (r: u64)
    ensures
        r == popcount(m),
{
    let mut x = m;
    let mut c: u64 = 0;
    proof {
        lemma_popcount_le(m);
    }
    while x != 0
        invariant
            c + popcount(x) == popcount(m),
            popcount(m) <= m,
        decreases x,
    {
        proof {
            crate::bitboard::lemma_strip_low();
        }
        x = x & (x - 1);
        c = c + 1;
    }
    c
}

/// Spreads `k` over the set bits of `m`, mirroring [`deposit`].
fn deposit_bits(k: u64, m: u64) -> (r: u64)
    ensures
        r == deposit(k, m),
    decreases m,
{
    if m == 0 {
        0
    } else {
        proof {
            crate::bitboard::lemma_strip_low();
        }
        let rest = m & (m - 1);
        let low = m & !rest;
        if k & 1 == 1 {
            low | deposit_bits(k >> 1, rest)
        } else {
            deposit_bits(k >> 1, rest)
        }
    }
}

/// The relevant-occupancy mask of the rook magic entry for square `i`.
pub open spec fn rook_mask(i: int) -> u64 {
    if i == 0 {
        0x0001_0101_0101_017e
    } else
    if i == 1 {
        0x0002_0202_0202_027c
    } else
    if i == 2 {
        0x0004_0404_0404_047a
    } else
    if i == 3 {
        0x0008_0808_0808_0876
    } else
    if i == 4 {
        0x0010_1010_1010_106e
    } else
    if i == 5 {
        0x0020_2020_2020_205e
    } else
    if i == 6 {
        0x0040_4040_4040_403e
    } else
    if i == 7 {
        0x0080_8080_8080_807e
    } else
    if i == 8 {
        0x0001_0101_0101_7e00
    } else
    if i == 9 {
        0x0002_0202_0202_7c00
    } else
    if i == 10 {
        0x0004_0404_0404_7a00
    } else
    if i == 11 {
        0x0008_0808_0808_7600
    } else
    if i == 12 {
        0x0010_1010_1010_6e00
    } else
    if i == 13 {
        0x0020_2020_2020_5e00
    } else
    if i == 14 {
        0x0040_4040_4040_3e00
    } else
    if i == 15 {
        0x0080_8080_8080_7e00
    } else
    if i == 16 {
        0x0001_0101_017e_0100
    } else
    if i == 17 {
        0x0002_0202_027c_0200
    } else
    if i == 18 {
        0x0004_0404_047a_0400
    } else
    if i == 19 {
        0x0008_0808_0876_0800
    } else
    if i == 20 {
        0x0010_1010_106e_1000
    } else
    if i == 21 {
        0x0020_2020_205e_2000
    } else
    if i == 22 {
        0x0040_4040_403e_4000
    } else
    if i == 23 {
        0x0080_8080_807e_8000
    } else
    if i == 24 {
        0x0001_0101_7e01_0100
    } else
    if i == 25 {
        0x0002_0202_7c02_0200
    } else
    if i == 26 {
        0x0004_0404_7a04_0400
    } else
    if i == 27 {
        0x0008_0808_7608_0800
    } else
    if i == 28 {
        0x0010_1010_6e10_1000
    } else
    if i == 29 {
        0x0020_2020_5e20_2000
    } else
    if i == 30 {
        0x0040_4040_3e40_4000
    } else
    if i == 31 {
        0x0080_8080_7e80_8000
    } else
    if i == 32 {
        0x0001_017e_0101_0100
    } else
    if i == 33 {
        0x0002_027c_0202_0200
    } else
    if i == 34 {
        0x0004_047a_0404_0400
    } else
    if i == 35 {
        0x0008_0876_0808_0800
    } else
    if i == 36 {
        0x0010_106e_1010_1000
    } else
    if i == 37 {
        0x0020_205e_2020_2000
    } else
    if i == 38 {
        0x0040_403e_4040_4000
    } else
    if i == 39 {
        0x0080_807e_8080_8000
    } else
    if i == 40 {
        0x0001_7e01_0101_0100
    } else
    if i == 41 {
        0x0002_7c02_0202_0200
    } else
    if i == 42 {
        0x0004_7a04_0404_0400
    } else
    if i == 43 {
        0x0008_7608_0808_0800
    } else
    if i == 44 {
        0x0010_6e10_1010_1000
    } else
    if i == 45 {
        0x0020_5e20_2020_2000
    } else
    if i == 46 {
        0x0040_3e40_4040_4000
    } else
    if i == 47 {
        0x0080_7e80_8080_8000
    } else
    if i == 48 {
        0x007e_0101_0101_0100
    } else
    if i == 49 {
        0x007c_0202_0202_0200
    } else
    if i == 50 {
        0x007a_0404_0404_0400
    } else
    if i == 51 {
        0x0076_0808_0808_0800
    } else
    if i == 52 {
        0x006e_1010_1010_1000
    } else
    if i == 53 {
        0x005e_2020_2020_2000
    } else
    if i == 54 {
        0x003e_4040_4040_4000
    } else
    if i == 55 {
        0x007e_8080_8080_8000
    } else
    if i == 56 {
        0x7e01_0101_0101_0100
    } else
    if i == 57 {
        0x7c02_0202_0202_0200
    } else
    if i == 58 {
        0x7a04_0404_0404_0400
    } else
    if i == 59 {
        0x7608_0808_0808_0800
    } else
    if i == 60 {
        0x6e10_1010_1010_1000
    } else
    if i == 61 {
        0x5e20_2020_2020_2000
    } else
    if i == 62 {
        0x3e40_4040_4040_4000
    } else
    {
        0x7e80_8080_8080_8000
    }
}

/// The magic multiplier of the rook magic entry for square `i`.
pub open spec fn rook_factor(i: int) -> u64 {
    if i == 0 {
        0x0028_0077_ffeb_fffe
    } else
    if i == 1 {
        0x2004_0102_0109_7fff
    } else
    if i == 2 {
        0x0010_0200_1005_3fff
    } else
    if i == 3 {
        0x0040_0400_0800_4002
    } else
    if i == 4 {
        0x7fd0_0441_ffff_d003
    } else
    if i == 5 {
        0x4020_0088_87df_fffe
    } else
    if i == 6 {
        0x0040_0088_8847_ffff
    } else
    if i == 7 {
        0x0068_00fb_ff75_fffd
    } else
    if i == 8 {
        0x0000_2801_0113_ffff
    } else
    if i == 9 {
        0x0020_0402_01fc_ffff
    } else
    if i == 10 {
        0x007f_e800_42ff_ffe8
    } else
    if i == 11 {
        0x0000_1800_217f_ffe8
    } else
    if i == 12 {
        0x0000_1800_073f_ffe8
    } else
    if i == 13 {
        0x0000_1800_e05f_ffe8
    } else
    if i == 14 {
        0x0000_1800_602f_ffe8
    } else
    if i == 15 {
        0x0000_3000_2fff_ffa0
    } else
    if i == 16 {
        0x0030_0018_010b_ffff
    } else
    if i == 17 {
        0x0003_000c_0085_fffb
    } else
    if i == 18 {
        0x0004_0008_0201_0008
    } else
    if i == 19 {
        0x0004_0020_2002_0004
    } else
    if i == 20 {
        0x0001_0020_0200_2001
    } else
    if i == 21 {
        0x0001_0010_0080_1040
    } else
    if i == 22 {
        0x0000_0040_4000_8001
    } else
    if i == 23 {
        0x0000_0068_00cd_fff4
    } else
    if i == 24 {
        0x0040_2000_1008_0010
    } else
    if i == 25 {
        0x0000_0800_1004_0010
    } else
    if i == 26 {
        0x0004_0100_0802_0008
    } else
    if i == 27 {
        0x0000_0400_2020_0200
    } else
    if i == 28 {
        0x0002_0080_1010_0100
    } else
    if i == 29 {
        0x0000_0080_2001_0020
    } else
    if i == 30 {
        0x0000_0080_2020_0040
    } else
    if i == 31 {
        0x0000_8200_2000_4020
    } else
    if i == 32 {
        0x00ff_fd18_0030_0030
    } else
    if i == 33 {
        0x007f_ff7f_bfd4_0020
    } else
    if i == 34 {
        0x003f_ffbd_0018_0018
    } else
    if i == 35 {
        0x001f_ffde_8018_0018
    } else
    if i == 36 {
        0x000f_ffe0_bfe8_0018
    } else
    if i == 37 {
        0x0001_0000_8020_2001
    } else
    if i == 38 {
        0x0003_fffb_ff98_0180
    } else
    if i == 39 {
        0x0001_fffd_ff90_00e0
    } else
    if i == 40 {
        0x00ff_fefe_ebff_d800
    } else
    if i == 41 {
        0x007f_fff7_ffc0_1400
    } else
    if i == 42 {
        0x003f_ffbf_e4ff_e800
    } else
    if i == 43 {
        0x001f_fff0_1fc0_3000
    } else
    if i == 44 {
        0x000f_ffe7_f8bf_e800
    } else
    if i == 45 {
        0x0007_ffdf_df3f_f808
    } else
    if i == 46 {
        0x0003_fff8_5fff_a804
    } else
    if i == 47 {
        0x0001_fffd_75ff_a802
    } else
    if i == 48 {
        0x00ff_ffd7_ffeb_ffd8
    } else
    if i == 49 {
        0x007f_ff75_ff7f_bfd8
    } else
    if i == 50 {
        0x003f_ff86_3fbf_7fd8
    } else
    if i == 51 {
        0x001f_ffbf_dfd7_ffd8
    } else
    if i == 52 {
        0x000f_fff8_1028_0028
    } else
    if i == 53 {
        0x0007_ffd7_f7fe_ffd8
    } else
    if i == 54 {
        0x0003_fffc_0c48_0048
    } else
    if i == 55 {
        0x0001_ffff_afd7_ffd8
    } else
    if i == 56 {
        0x00ff_ffe4_ffdf_a3ba
    } else
    if i == 57 {
        0x007f_ffef_7ff3_d3da
    } else
    if i == 58 {
        0x003f_ffbf_dfef_f7fa
    } else
    if i == 59 {
        0x001f_ffef_f7fb_fc22
    } else
    if i == 60 {
        0x0000_0204_0800_1001
    } else
    if i == 61 {
        0x0007_fffe_ffff_77fd
    } else
    if i == 62 {
        0x0003_ffff_bf7d_feec
    } else
    {
        0x0001_ffff_9dff_a333
    }
}

/// The table offset of the rook magic entry for square `i`.
pub open spec fn rook_offset(i: int) -> int {
    if i == 0 {
        26304
    } else
    if i == 1 {
        35520
    } else
    if i == 2 {
        38592
    } else
    if i == 3 {
        8026
    } else
    if i == 4 {
        22196
    } else
    if i == 5 {
        80870
    } else
    if i == 6 {
        76747
    } else
    if i == 7 {
        30400
    } else
    if i == 8 {
        11115
    } else
    if i == 9 {
        18205
    } else
    if i == 10 {
        53577
    } else
    if i == 11 {
        62724
    } else
    if i == 12 {
        34282
    } else
    if i == 13 {
        29196
    } else
    if i == 14 {
        23806
    } else
    if i == 15 {
        49481
    } else
    if i == 16 {
        2410
    } else
    if i == 17 {
        36498
    } else
    if i == 18 {
        24478
    } else
    if i == 19 {
        10074
    } else
    if i == 20 {
        79315
    } else
    if i == 21 {
        51779
    } else
    if i == 22 {
        13586
    } else
    if i == 23 {
        19323
    } else
    if i == 24 {
        70612
    } else
    if i == 25 {
        83652
    } else
    if i == 26 {
        63110
    } else
    if i == 27 {
        34496
    } else
    if i == 28 {
        84966
    } else
    if i == 29 {
        54341
    } else
    if i == 30 {
        60421
    } else
    if i == 31 {
        86402
    } else
    if i == 32 {
        50245
    } else
    if i == 33 {
        76622
    } else
    if i == 34 {
        84676
    } else
    if i == 35 {
        78757
    } else
    if i == 36 {
        37346
    } else
    if i == 37 {
        370
    } else
    if i == 38 {
        42182
    } else
    if i == 39 {
        45385
    } else
    if i == 40 {
        61659
    } else
    if i == 41 {
        12790
    } else
    if i == 42 {
        16762
    } else
    if i == 43 {
        0
    } else
    if i == 44 {
        38380
    } else
    if i == 45 {
        11098
    } else
    if i == 46 {
        21803
    } else
    if i == 47 {
        39189
    } else
    if i == 48 {
        58628
    } else
    if i == 49 {
        44116
    } else
    if i == 50 {
        78357
    } else
    if i == 51 {
        44481
    } else
    if i == 52 {
        64134
    } else
    if i == 53 {
        41759
    } else
    if i == 54 {
        1394
    } else
    if i == 55 {
        40910
    } else
    if i == 56 {
        66516
    } else
    if i == 57 {
        3897
    } else
    if i == 58 {
        3930
    } else
    if i == 59 {
        72934
    } else
    if i == 60 {
        72662
    } else
    if i == 61 {
        56325
    } else
    if i == 62 {
        66501
    } else
    {
        14826
    }
}

/// The relevant-occupancy mask of the bishop magic entry for square `i`.
pub open spec fn bishop_mask(i: int) -> u64 {
    if i == 0 {
        0x0040_2010_0804_0200
    } else
    if i == 1 {
        0x0000_4020_1008_0400
    } else
    if i == 2 {
        0x0000_0040_2010_0a00
    } else
    if i == 3 {
        0x0000_0000_4022_1400
    } else
    if i == 4 {
        0x0000_0000_0244_2800
    } else
    if i == 5 {
        0x0000_0002_0408_5000
    } else
    if i == 6 {
        0x0000_0204_0810_2000
    } else
    if i == 7 {
        0x0002_0408_1020_4000
    } else
    if i == 8 {
        0x0020_1008_0402_0000
    } else
    if i == 9 {
        0x0040_2010_0804_0000
    } else
    if i == 10 {
        0x0000_4020_100a_0000
    } else
    if i == 11 {
        0x0000_0040_2214_0000
    } else
    if i == 12 {
        0x0000_0002_4428_0000
    } else
    if i == 13 {
        0x0000_0204_0850_0000
    } else
    if i == 14 {
        0x0002_0408_1020_0000
    } else
    if i == 15 {
        0x0004_0810_2040_0000
    } else
    if i == 16 {
        0x0010_0804_0200_0200
    } else
    if i == 17 {
        0x0020_1008_0400_0400
    } else
    if i == 18 {
        0x0040_2010_0a00_0a00
    } else
    if i == 19 {
        0x0000_4022_1400_1400
    } else
    if i == 20 {
        0x0000_0244_2800_2800
    } else
    if i == 21 {
        0x0002_0408_5000_5000
    } else
    if i == 22 {
        0x0004_0810_2000_2000
    } else
    if i == 23 {
        0x0008_1020_4000_4000
    } else
    if i == 24 {
        0x0008_0402_0002_0400
    } else
    if i == 25 {
        0x0010_0804_0004_0800
    } else
    if i == 26 {
        0x0020_100a_000a_1000
    } else
    if i == 27 {
        0x0040_2214_0014_2200
    } else
    if i == 28 {
        0x0002_4428_0028_4400
    } else
    if i == 29 {
        0x0004_0850_0050_0800
    } else
    if i == 30 {
        0x0008_1020_0020_1000
    } else
    if i == 31 {
        0x0010_2040_0040_2000
    } else
    if i == 32 {
        0x0004_0200_0204_0800
    } else
    if i == 33 {
        0x0008_0400_0408_1000
    } else
    if i == 34 {
        0x0010_0a00_0a10_2000
    } else
    if i == 35 {
        0x0022_1400_1422_4000
    } else
    if i == 36 {
        0x0044_2800_2844_0200
    } else
    if i == 37 {
        0x0008_5000_5008_0400
    } else
    if i == 38 {
        0x0010_2000_2010_0800
    } else
    if i == 39 {
        0x0020_4000_4020_1000
    } else
    if i == 40 {
        0x0002_0002_0408_1000
    } else
    if i == 41 {
        0x0004_0004_0810_2000
    } else
    if i == 42 {
        0x000a_000a_1020_4000
    } else
    if i == 43 {
        0x0014_0014_2240_0000
    } else
    if i == 44 {
        0x0028_0028_4402_0000
    } else
    if i == 45 {
        0x0050_0050_0804_0200
    } else
    if i == 46 {
        0x0020_0020_1008_0400
    } else
    if i == 47 {
        0x0040_0040_2010_0800
    } else
    if i == 48 {
        0x0000_0204_0810_2000
    } else
    if i == 49 {
        0x0000_0408_1020_4000
    } else
    if i == 50 {
        0x0000_0a10_2040_0000
    } else
    if i == 51 {
        0x0000_1422_4000_0000
    } else
    if i == 52 {
        0x0000_2844_0200_0000
    } else
    if i == 53 {
        0x0000_5008_0402_0000
    } else
    if i == 54 {
        0x0000_2010_0804_0200
    } else
    if i == 55 {
        0x0000_4020_1008_0400
    } else
    if i == 56 {
        0x0002_0408_1020_4000
    } else
    if i == 57 {
        0x0004_0810_2040_0000
    } else
    if i == 58 {
        0x000a_1020_4000_0000
    } else
    if i == 59 {
        0x0014_2240_0000_0000
    } else
    if i == 60 {
        0x0028_4402_0000_0000
    } else
    if i == 61 {
        0x0050_0804_0200_0000
    } else
    if i == 62 {
        0x0020_1008_0402_0000
    } else
    {
        0x0040_2010_0804_0200
    }
}

/// The magic multiplier of the bishop magic entry for square `i`.
pub open spec fn bishop_factor(i: int) -> u64 {
    if i == 0 {
        0x007f_bfbf_bfbf_bfff
    } else
    if i == 1 {
        0x0000_a060_4010_07fc
    } else
    if i == 2 {
        0x0001_0040_0802_0000
    } else
    if i == 3 {
        0x0000_8060_0400_0000
    } else
    if i == 4 {
        0x0000_1004_0000_0000
    } else
    if i == 5 {
        0x0000_21c1_00b2_0000
    } else
    if i == 6 {
        0x0000_0400_4100_8000
    } else
    if i == 7 {
        0x0000_0fb0_203f_ff80
    } else
    if i == 8 {
        0x0000_0401_0040_1004
    } else
    if i == 9 {
        0x0000_0200_8020_0802
    } else
    if i == 10 {
        0x0000_0040_1020_2000
    } else
    if i == 11 {
        0x0000_0080_6004_0000
    } else
    if i == 12 {
        0x0000_0044_0200_0000
    } else
    if i == 13 {
        0x0000_0008_0100_8000
    } else
    if i == 14 {
        0x0000_07ef_e0bf_ff80
    } else
    if i == 15 {
        0x0000_0008_2082_0020
    } else
    if i == 16 {
        0x0000_4000_8080_8080
    } else
    if i == 17 {
        0x0002_1f01_0040_0808
    } else
    if i == 18 {
        0x0001_8000_c06f_3fff
    } else
    if i == 19 {
        0x0000_2582_0080_1000
    } else
    if i == 20 {
        0x0000_2400_8084_0000
    } else
    if i == 21 {
        0x0000_1800_0c03_fff8
    } else
    if i == 22 {
        0x0000_0a58_4020_8020
    } else
    if i == 23 {
        0x0000_0200_0820_8020
    } else
    if i == 24 {
        0x0000_8040_0081_0100
    } else
    if i == 25 {
        0x0001_0119_0080_2008
    } else
    if i == 26 {
        0x0000_8040_0081_0100
    } else
    if i == 27 {
        0x0001_0040_3c04_03ff
    } else
    if i == 28 {
        0x0007_8402_a880_2000
    } else
    if i == 29 {
        0x0000_1010_0080_4400
    } else
    if i == 30 {
        0x0000_0808_0010_4100
    } else
    if i == 31 {
        0x0000_4004_c008_2008
    } else
    if i == 32 {
        0x0001_0101_2000_8020
    } else
    if i == 33 {
        0x0000_8080_9a00_4010
    } else
    if i == 34 {
        0x0007_fefe_0881_0010
    } else
    if i == 35 {
        0x0003_ff0f_833f_c080
    } else
    if i == 36 {
        0x007f_e080_1900_3042
    } else
    if i == 37 {
        0x003f_ffef_ea00_3000
    } else
    if i == 38 {
        0x0000_1010_1000_2080
    } else
    if i == 39 {
        0x0000_8020_0508_0804
    } else
    if i == 40 {
        0x0000_8080_80a8_0040
    } else
    if i == 41 {
        0x0000_1041_0020_0040
    } else
    if i == 42 {
        0x0003_ffdf_7f83_3fc0
    } else
    if i == 43 {
        0x0000_0088_4045_0020
    } else
    if i == 44 {
        0x0000_7ffc_8018_0030
    } else
    if i == 45 {
        0x007f_ffdd_8014_0028
    } else
    if i == 46 {
        0x0002_0080_200a_0004
    } else
    if i == 47 {
        0x0000_1010_1010_0020
    } else
    if i == 48 {
        0x0007_ffdf_c180_5000
    } else
    if i == 49 {
        0x0003_ffef_e0c0_2200
    } else
    if i == 50 {
        0x0000_0008_2080_6000
    } else
    if i == 51 {
        0x0000_0000_0840_3000
    } else
    if i == 52 {
        0x0000_0001_0020_2000
    } else
    if i == 53 {
        0x0000_0040_4080_2000
    } else
    if i == 54 {
        0x0004_0100_4010_0400
    } else
    if i == 55 {
        0x0000_6020_6018_03f4
    } else
    if i == 56 {
        0x0003_ffdf_dfc2_8048
    } else
    if i == 57 {
        0x0000_0008_2082_0020
    } else
    if i == 58 {
        0x0000_0000_0820_8060
    } else
    if i == 59 {
        0x0000_0000_0080_8020
    } else
    if i == 60 {
        0x0000_0000_0100_2020
    } else
    if i == 61 {
        0x0000_0004_0100_2008
    } else
    if i == 62 {
        0x0000_0040_4040_4040
    } else
    {
        0x007f_ff9f_df7f_f813
    }
}

/// The table offset of the bishop magic entry for square `i`.
pub open spec fn bishop_offset(i: int) -> int {
    if i == 0 {
        5378
    } else
    if i == 1 {
        4093
    } else
    if i == 2 {
        4314
    } else
    if i == 3 {
        6587
    } else
    if i == 4 {
        6491
    } else
    if i == 5 {
        6330
    } else
    if i == 6 {
        5609
    } else
    if i == 7 {
        22236
    } else
    if i == 8 {
        6106
    } else
    if i == 9 {
        5625
    } else
    if i == 10 {
        16785
    } else
    if i == 11 {
        16817
    } else
    if i == 12 {
        6842
    } else
    if i == 13 {
        7003
    } else
    if i == 14 {
        4197
    } else
    if i == 15 {
        7356
    } else
    if i == 16 {
        4602
    } else
    if i == 17 {
        4538
    } else
    if i == 18 {
        29531
    } else
    if i == 19 {
        45393
    } else
    if i == 20 {
        12420
    } else
    if i == 21 {
        15763
    } else
    if i == 22 {
        5050
    } else
    if i == 23 {
        4346
    } else
    if i == 24 {
        6074
    } else
    if i == 25 {
        7866
    } else
    if i == 26 {
        32139
    } else
    if i == 27 {
        57673
    } else
    if i == 28 {
        55365
    } else
    if i == 29 {
        15818
    } else
    if i == 30 {
        5562
    } else
    if i == 31 {
        6390
    } else
    if i == 32 {
        7930
    } else
    if i == 33 {
        13329
    } else
    if i == 34 {
        7170
    } else
    if i == 35 {
        27267
    } else
    if i == 36 {
        53787
    } else
    if i == 37 {
        5097
    } else
    if i == 38 {
        6643
    } else
    if i == 39 {
        6138
    } else
    if i == 40 {
        7418
    } else
    if i == 41 {
        7898
    } else
    if i == 42 {
        42012
    } else
    if i == 43 {
        57350
    } else
    if i == 44 {
        22813
    } else
    if i == 45 {
        56693
    } else
    if i == 46 {
        5818
    } else
    if i == 47 {
        7098
    } else
    if i == 48 {
        4451
    } else
    if i == 49 {
        4709
    } else
    if i == 50 {
        4794
    } else
    if i == 51 {
        13364
    } else
    if i == 52 {
        4570
    } else
    if i == 53 {
        4282
    } else
    if i == 54 {
        14964
    } else
    if i == 55 {
        4026
    } else
    if i == 56 {
        4826
    } else
    if i == 57 {
        7354
    } else
    if i == 58 {
        4848
    } else
    if i == 59 {
        15946
    } else
    if i == 60 {
        14932
    } else
    if i == 61 {
        16588
    } else
    if i == 62 {
        6905
    } else
    {
        16076
    }
}

/// The rook magic entry for square `sq`.
pub fn rook_magic(sq: usize) -> (m: Magic)
    requires
        sq < 64,
    ensures
        m.mask == rook_mask(sq as int),
        m.factor == rook_factor(sq as int),
        m.offset == rook_offset(sq as int),
{
    match sq {
        0 => Magic { mask: 0x0001_0101_0101_017e, factor: 0x0028_0077_ffeb_fffe, offset: 26304 },
        1 => Magic { mask: 0x0002_0202_0202_027c, factor: 0x2004_0102_0109_7fff, offset: 35520 },
        2 => Magic { mask: 0x0004_0404_0404_047a, factor: 0x0010_0200_1005_3fff, offset: 38592 },
        3 => Magic { mask: 0x0008_0808_0808_0876, factor: 0x0040_0400_0800_4002, offset: 8026 },
        4 => Magic { mask: 0x0010_1010_1010_106e, factor: 0x7fd0_0441_ffff_d003, offset: 22196 },
        5 => Magic { mask: 0x0020_2020_2020_205e, factor: 0x4020_0088_87df_fffe, offset: 80870 },
        6 => Magic { mask: 0x0040_4040_4040_403e, factor: 0x0040_0088_8847_ffff, offset: 76747 },
        7 => Magic { mask: 0x0080_8080_8080_807e, factor: 0x0068_00fb_ff75_fffd, offset: 30400 },
        8 => Magic { mask: 0x0001_0101_0101_7e00, factor: 0x0000_2801_0113_ffff, offset: 11115 },
        9 => Magic { mask: 0x0002_0202_0202_7c00, factor: 0x0020_0402_01fc_ffff, offset: 18205 },
        10 => Magic { mask: 0x0004_0404_0404_7a00, factor: 0x007f_e800_42ff_ffe8, offset: 53577 },
        11 => Magic { mask: 0x0008_0808_0808_7600, factor: 0x0000_1800_217f_ffe8, offset: 62724 },
        12 => Magic { mask: 0x0010_1010_1010_6e00, factor: 0x0000_1800_073f_ffe8, offset: 34282 },
        13 => Magic { mask: 0x0020_2020_2020_5e00, factor: 0x0000_1800_e05f_ffe8, offset: 29196 },
        14 => Magic { mask: 0x0040_4040_4040_3e00, factor: 0x0000_1800_602f_ffe8, offset: 23806 },
        15 => Magic { mask: 0x0080_8080_8080_7e00, factor: 0x0000_3000_2fff_ffa0, offset: 49481 },
        16 => Magic { mask: 0x0001_0101_017e_0100, factor: 0x0030_0018_010b_ffff, offset: 2410 },
        17 => Magic { mask: 0x0002_0202_027c_0200, factor: 0x0003_000c_0085_fffb, offset: 36498 },
        18 => Magic { mask: 0x0004_0404_047a_0400, factor: 0x0004_0008_0201_0008, offset: 24478 },
        19 => Magic { mask: 0x0008_0808_0876_0800, factor: 0x0004_0020_2002_0004, offset: 10074 },
        20 => Magic { mask: 0x0010_1010_106e_1000, factor: 0x0001_0020_0200_2001, offset: 79315 },
        21 => Magic { mask: 0x0020_2020_205e_2000, factor: 0x0001_0010_0080_1040, offset: 51779 },
        22 => Magic { mask: 0x0040_4040_403e_4000, factor: 0x0000_0040_4000_8001, offset: 13586 },
        23 => Magic { mask: 0x0080_8080_807e_8000, factor: 0x0000_0068_00cd_fff4, offset: 19323 },
        24 => Magic { mask: 0x0001_0101_7e01_0100, factor: 0x0040_2000_1008_0010, offset: 70612 },
        25 => Magic { mask: 0x0002_0202_7c02_0200, factor: 0x0000_0800_1004_0010, offset: 83652 },
        26 => Magic { mask: 0x0004_0404_7a04_0400, factor: 0x0004_0100_0802_0008, offset: 63110 },
        27 => Magic { mask: 0x0008_0808_7608_0800, factor: 0x0000_0400_2020_0200, offset: 34496 },
        28 => Magic { mask: 0x0010_1010_6e10_1000, factor: 0x0002_0080_1010_0100, offset: 84966 },
        29 => Magic { mask: 0x0020_2020_5e20_2000, factor: 0x0000_0080_2001_0020, offset: 54341 },
        30 => Magic { mask: 0x0040_4040_3e40_4000, factor: 0x0000_0080_2020_0040, offset: 60421 },
        31 => Magic { mask: 0x0080_8080_7e80_8000, factor: 0x0000_8200_2000_4020, offset: 86402 },
        32 => Magic { mask: 0x0001_017e_0101_0100, factor: 0x00ff_fd18_0030_0030, offset: 50245 },
        33 => Magic { mask: 0x0002_027c_0202_0200, factor: 0x007f_ff7f_bfd4_0020, offset: 76622 },
        34 => Magic { mask: 0x0004_047a_0404_0400, factor: 0x003f_ffbd_0018_0018, offset: 84676 },
        35 => Magic { mask: 0x0008_0876_0808_0800, factor: 0x001f_ffde_8018_0018, offset: 78757 },
        36 => Magic { mask: 0x0010_106e_1010_1000, factor: 0x000f_ffe0_bfe8_0018, offset: 37346 },
        37 => Magic { mask: 0x0020_205e_2020_2000, factor: 0x0001_0000_8020_2001, offset: 370 },
        38 => Magic { mask: 0x0040_403e_4040_4000, factor: 0x0003_fffb_ff98_0180, offset: 42182 },
        39 => Magic { mask: 0x0080_807e_8080_8000, factor: 0x0001_fffd_ff90_00e0, offset: 45385 },
        40 => Magic { mask: 0x0001_7e01_0101_0100, factor: 0x00ff_fefe_ebff_d800, offset: 61659 },
        41 => Magic { mask: 0x0002_7c02_0202_0200, factor: 0x007f_fff7_ffc0_1400, offset: 12790 },
        42 => Magic { mask: 0x0004_7a04_0404_0400, factor: 0x003f_ffbf_e4ff_e800, offset: 16762 },
        43 => Magic { mask: 0x0008_7608_0808_0800, factor: 0x001f_fff0_1fc0_3000, offset: 0 },
        44 => Magic { mask: 0x0010_6e10_1010_1000, factor: 0x000f_ffe7_f8bf_e800, offset: 38380 },
        45 => Magic { mask: 0x0020_5e20_2020_2000, factor: 0x0007_ffdf_df3f_f808, offset: 11098 },
        46 => Magic { mask: 0x0040_3e40_4040_4000, factor: 0x0003_fff8_5fff_a804, offset: 21803 },
        47 => Magic { mask: 0x0080_7e80_8080_8000, factor: 0x0001_fffd_75ff_a802, offset: 39189 },
        48 => Magic { mask: 0x007e_0101_0101_0100, factor: 0x00ff_ffd7_ffeb_ffd8, offset: 58628 },
        49 => Magic { mask: 0x007c_0202_0202_0200, factor: 0x007f_ff75_ff7f_bfd8, offset: 44116 },
        50 => Magic { mask: 0x007a_0404_0404_0400, factor: 0x003f_ff86_3fbf_7fd8, offset: 78357 },
        51 => Magic { mask: 0x0076_0808_0808_0800, factor: 0x001f_ffbf_dfd7_ffd8, offset: 44481 },
        52 => Magic { mask: 0x006e_1010_1010_1000, factor: 0x000f_fff8_1028_0028, offset: 64134 },
        53 => Magic { mask: 0x005e_2020_2020_2000, factor: 0x0007_ffd7_f7fe_ffd8, offset: 41759 },
        54 => Magic { mask: 0x003e_4040_4040_4000, factor: 0x0003_fffc_0c48_0048, offset: 1394 },
        55 => Magic { mask: 0x007e_8080_8080_8000, factor: 0x0001_ffff_afd7_ffd8, offset: 40910 },
        56 => Magic { mask: 0x7e01_0101_0101_0100, factor: 0x00ff_ffe4_ffdf_a3ba, offset: 66516 },
        57 => Magic { mask: 0x7c02_0202_0202_0200, factor: 0x007f_ffef_7ff3_d3da, offset: 3897 },
        58 => Magic { mask: 0x7a04_0404_0404_0400, factor: 0x003f_ffbf_dfef_f7fa, offset: 3930 },
        59 => Magic { mask: 0x7608_0808_0808_0800, factor: 0x001f_ffef_f7fb_fc22, offset: 72934 },
        60 => Magic { mask: 0x6e10_1010_1010_1000, factor: 0x0000_0204_0800_1001, offset: 72662 },
        61 => Magic { mask: 0x5e20_2020_2020_2000, factor: 0x0007_fffe_ffff_77fd, offset: 56325 },
        62 => Magic { mask: 0x3e40_4040_4040_4000, factor: 0x0003_ffff_bf7d_feec, offset: 66501 },
        63 => Magic { mask: 0x7e80_8080_8080_8000, factor: 0x0001_ffff_9dff_a333, offset: 14826 },
        _ => Magic { mask: 0, factor: 0, offset: 0 },
    }
}

/// The bishop magic entry for square `sq`.
pub fn bishop_magic(sq: usize) -> (m: Magic)
    requires
        sq < 64,
    ensures
        m.mask == bishop_mask(sq as int),
        m.factor == bishop_factor(sq as int),
        m.offset == bishop_offset(sq as int),
{
    match sq {
        0 => Magic { mask: 0x0040_2010_0804_0200, factor: 0x007f_bfbf_bfbf_bfff, offset: 5378 },
        1 => Magic { mask: 0x0000_4020_1008_0400, factor: 0x0000_a060_4010_07fc, offset: 4093 },
        2 => Magic { mask: 0x0000_0040_2010_0a00, factor: 0x0001_0040_0802_0000, offset: 4314 },
        3 => Magic { mask: 0x0000_0000_4022_1400, factor: 0x0000_8060_0400_0000, offset: 6587 },
        4 => Magic { mask: 0x0000_0000_0244_2800, factor: 0x0000_1004_0000_0000, offset: 6491 },
        5 => Magic { mask: 0x0000_0002_0408_5000, factor: 0x0000_21c1_00b2_0000, offset: 6330 },
        6 => Magic { mask: 0x0000_0204_0810_2000, factor: 0x0000_0400_4100_8000, offset: 5609 },
        7 => Magic { mask: 0x0002_0408_1020_4000, factor: 0x0000_0fb0_203f_ff80, offset: 22236 },
        8 => Magic { mask: 0x0020_1008_0402_0000, factor: 0x0000_0401_0040_1004, offset: 6106 },
        9 => Magic { mask: 0x0040_2010_0804_0000, factor: 0x0000_0200_8020_0802, offset: 5625 },
        10 => Magic { mask: 0x0000_4020_100a_0000, factor: 0x0000_0040_1020_2000, offset: 16785 },
        11 => Magic { mask: 0x0000_0040_2214_0000, factor: 0x0000_0080_6004_0000, offset: 16817 },
        12 => Magic { mask: 0x0000_0002_4428_0000, factor: 0x0000_0044_0200_0000, offset: 6842 },
        13 => Magic { mask: 0x0000_0204_0850_0000, factor: 0x0000_0008_0100_8000, offset: 7003 },
        14 => Magic { mask: 0x0002_0408_1020_0000, factor: 0x0000_07ef_e0bf_ff80, offset: 4197 },
        15 => Magic { mask: 0x0004_0810_2040_0000, factor: 0x0000_0008_2082_0020, offset: 7356 },
        16 => Magic { mask: 0x0010_0804_0200_0200, factor: 0x0000_4000_8080_8080, offset: 4602 },
        17 => Magic { mask: 0x0020_1008_0400_0400, factor: 0x0002_1f01_0040_0808, offset: 4538 },
        18 => Magic { mask: 0x0040_2010_0a00_0a00, factor: 0x0001_8000_c06f_3fff, offset: 29531 },
        19 => Magic { mask: 0x0000_4022_1400_1400, factor: 0x0000_2582_0080_1000, offset: 45393 },
        20 => Magic { mask: 0x0000_0244_2800_2800, factor: 0x0000_2400_8084_0000, offset: 12420 },
        21 => Magic { mask: 0x0002_0408_5000_5000, factor: 0x0000_1800_0c03_fff8, offset: 15763 },
        22 => Magic { mask: 0x0004_0810_2000_2000, factor: 0x0000_0a58_4020_8020, offset: 5050 },
        23 => Magic { mask: 0x0008_1020_4000_4000, factor: 0x0000_0200_0820_8020, offset: 4346 },
        24 => Magic { mask: 0x0008_0402_0002_0400, factor: 0x0000_8040_0081_0100, offset: 6074 },
        25 => Magic { mask: 0x0010_0804_0004_0800, factor: 0x0001_0119_0080_2008, offset: 7866 },
        26 => Magic { mask: 0x0020_100a_000a_1000, factor: 0x0000_8040_0081_0100, offset: 32139 },
        27 => Magic { mask: 0x0040_2214_0014_2200, factor: 0x0001_0040_3c04_03ff, offset: 57673 },
        28 => Magic { mask: 0x0002_4428_0028_4400, factor: 0x0007_8402_a880_2000, offset: 55365 },
        29 => Magic { mask: 0x0004_0850_0050_0800, factor: 0x0000_1010_0080_4400, offset: 15818 },
        30 => Magic { mask: 0x0008_1020_0020_1000, factor: 0x0000_0808_0010_4100, offset: 5562 },
        31 => Magic { mask: 0x0010_2040_0040_2000, factor: 0x0000_4004_c008_2008, offset: 6390 },
        32 => Magic { mask: 0x0004_0200_0204_0800, factor: 0x0001_0101_2000_8020, offset: 7930 },
        33 => Magic { mask: 0x0008_0400_0408_1000, factor: 0x0000_8080_9a00_4010, offset: 13329 },
        34 => Magic { mask: 0x0010_0a00_0a10_2000, factor: 0x0007_fefe_0881_0010, offset: 7170 },
        35 => Magic { mask: 0x0022_1400_1422_4000, factor: 0x0003_ff0f_833f_c080, offset: 27267 },
        36 => Magic { mask: 0x0044_2800_2844_0200, factor: 0x007f_e080_1900_3042, offset: 53787 },
        37 => Magic { mask: 0x0008_5000_5008_0400, factor: 0x003f_ffef_ea00_3000, offset: 5097 },
        38 => Magic { mask: 0x0010_2000_2010_0800, factor: 0x0000_1010_1000_2080, offset: 6643 },
        39 => Magic { mask: 0x0020_4000_4020_1000, factor: 0x0000_8020_0508_0804, offset: 6138 },
        40 => Magic { mask: 0x0002_0002_0408_1000, factor: 0x0000_8080_80a8_0040, offset: 7418 },
        41 => Magic { mask: 0x0004_0004_0810_2000, factor: 0x0000_1041_0020_0040, offset: 7898 },
        42 => Magic { mask: 0x000a_000a_1020_4000, factor: 0x0003_ffdf_7f83_3fc0, offset: 42012 },
        43 => Magic { mask: 0x0014_0014_2240_0000, factor: 0x0000_0088_4045_0020, offset: 57350 },
        44 => Magic { mask: 0x0028_0028_4402_0000, factor: 0x0000_7ffc_8018_0030, offset: 22813 },
        45 => Magic { mask: 0x0050_0050_0804_0200, factor: 0x007f_ffdd_8014_0028, offset: 56693 },
        46 => Magic { mask: 0x0020_0020_1008_0400, factor: 0x0002_0080_200a_0004, offset: 5818 },
        47 => Magic { mask: 0x0040_0040_2010_0800, factor: 0x0000_1010_1010_0020, offset: 7098 },
        48 => Magic { mask: 0x0000_0204_0810_2000, factor: 0x0007_ffdf_c180_5000, offset: 4451 },
        49 => Magic { mask: 0x0000_0408_1020_4000, factor: 0x0003_ffef_e0c0_2200, offset: 4709 },
        50 => Magic { mask: 0x0000_0a10_2040_0000, factor: 0x0000_0008_2080_6000, offset: 4794 },
        51 => Magic { mask: 0x0000_1422_4000_0000, factor: 0x0000_0000_0840_3000, offset: 13364 },
        52 => Magic { mask: 0x0000_2844_0200_0000, factor: 0x0000_0001_0020_2000, offset: 4570 },
        53 => Magic { mask: 0x0000_5008_0402_0000, factor: 0x0000_0040_4080_2000, offset: 4282 },
        54 => Magic { mask: 0x0000_2010_0804_0200, factor: 0x0004_0100_4010_0400, offset: 14964 },
        55 => Magic { mask: 0x0000_4020_1008_0400, factor: 0x0000_6020_6018_03f4, offset: 4026 },
        56 => Magic { mask: 0x0002_0408_1020_4000, factor: 0x0003_ffdf_dfc2_8048, offset: 4826 },
        57 => Magic { mask: 0x0004_0810_2040_0000, factor: 0x0000_0008_2082_0020, offset: 7354 },
        58 => Magic { mask: 0x000a_1020_4000_0000, factor: 0x0000_0000_0820_8060, offset: 4848 },
        59 => Magic { mask: 0x0014_2240_0000_0000, factor: 0x0000_0000_0080_8020, offset: 15946 },
        60 => Magic { mask: 0x0028_4402_0000_0000, factor: 0x0000_0000_0100_2020, offset: 14932 },
        61 => Magic { mask: 0x0050_0804_0200_0000, factor: 0x0000_0004_0100_2008, offset: 16588 },
        62 => Magic { mask: 0x0020_1008_0402_0000, factor: 0x0000_0040_4040_4040, offset: 6905 },
        63 => Magic { mask: 0x0040_2010_0804_0200, factor: 0x007f_ff9f_df7f_f813, offset: 16076 },
        _ => Magic { mask: 0, factor: 0, offset: 0 },
    }
}


/// The rook table entry for square `sq` and occupancy subset `s` is in
/// bounds and holds exactly the ray-walked rook attack set, which is
/// never empty.
pub open spec fn rook_entry_ok(t: Seq<u64>, sq: int, s: u64) -> bool {
    &&& 0 <= rook_index(sq, s) < ATTACK_TABLE_LEN
    &&& t[rook_index(sq, s)] == rook_rays(sq, s)
    &&& rook_rays(sq, s) != 0
}

/// The bishop table entry for square `sq` and occupancy subset `s` is in
/// bounds and holds exactly the ray-walked bishop attack set, which is
/// never empty.
pub open spec fn bishop_entry_ok(t: Seq<u64>, sq: int, s: u64) -> bool {
    &&& 0 <= bishop_index(sq, s) < ATTACK_TABLE_LEN
    &&& t[bishop_index(sq, s)] == bishop_rays(sq, s)
    &&& bishop_rays(sq, s) != 0
}


/// The magic index of every occupancy subset of every mask lands inside
/// the shared table, for both families.
pub open spec fn magics_index_ok() -> bool {
    &&& forall|sq: int, s: u64|
        0 <= sq < 64 && s & rook_mask(sq) == s ==> 0 <= #[trigger] rook_index(sq, s)
            < ATTACK_TABLE_LEN
    &&& forall|sq: int, s: u64|
        0 <= sq < 64 && s & bishop_mask(sq) == s ==> 0 <= #[trigger] bishop_index(sq, s)
            < ATTACK_TABLE_LEN
}

/// No two occupancy subsets whose magic indices coincide have different
/// ray-walked attack sets, within either family or across the two: the
/// perfect-hash property of the solved constants.
pub open spec fn magics_collision_free() -> bool {
    &&& forall|q1: int, s1: u64, q2: int, s2: u64|
        #![trigger rook_index(q1, s1), rook_index(q2, s2)]
        0 <= q1 < 64 && s1 & rook_mask(q1) == s1 && 0 <= q2 < 64 && s2 & rook_mask(q2) == s2
            && rook_index(q1, s1) == rook_index(q2, s2) ==> rook_rays(q1, s1) == rook_rays(q2, s2)
    &&& forall|q1: int, s1: u64, q2: int, s2: u64|
        #![trigger bishop_index(q1, s1), bishop_index(q2, s2)]
        0 <= q1 < 64 && s1 & bishop_mask(q1) == s1 && 0 <= q2 < 64 && s2 & bishop_mask(q2) == s2
            && bishop_index(q1, s1) == bishop_index(q2, s2) ==> bishop_rays(q1, s1)
            == bishop_rays(q2, s2)
    &&& forall|q1: int, s1: u64, q2: int, s2: u64|
        #![trigger rook_index(q1, s1), bishop_index(q2, s2)]
        0 <= q1 < 64 && s1 & rook_mask(q1) == s1 && 0 <= q2 < 64 && s2 & bishop_mask(q2) == s2
            && rook_index(q1, s1) == bishop_index(q2, s2) ==> rook_rays(q1, s1) == bishop_rays(
            q2,
            s2,
        )
}

/// Every relevant-occupancy mask fits the index width the build
/// enumerates.
pub open spec fn magics_width_ok() -> bool {
    &&& forall|sq: int| 0 <= sq < 64 ==> popcount(#[trigger] rook_mask(sq)) <= 12
    &&& forall|sq: int| 0 <= sq < 64 ==> popcount(#[trigger] bishop_mask(sq)) <= 12
}

/// The solved magic constants serve a correct table: the masks fit the
/// index width, every index is in bounds, and no two subsets collide
/// with different attack sets.
pub open spec fn magics_consistent() -> bool {
    magics_width_ok() && magics_index_ok() && magics_collision_free()
}

/// A non-zero table entry was derived from some occupancy subset of one
/// of the two families whose magic index names it.
pub open spec fn entry_justified(t: Seq<u64>, i: int) -> bool {
    ||| exists|q: int, s: u64|
        #![trigger rook_index(q, s)]
        0 <= q < 64 && s & rook_mask(q) == s && rook_index(q, s) == i && rook_rays(q, s) == t[i]
    ||| exists|q: int, s: u64|
        #![trigger bishop_index(q, s)]
        0 <= q < 64 && s & bishop_mask(q) == s && bishop_index(q, s) == i && bishop_rays(q, s)
            == t[i]
}

/// Every non-zero entry of the table is justified.
pub open spec fn table_justified(t: Seq<u64>) -> bool {
    forall|i: int| 0 <= i < ATTACK_TABLE_LEN && #[trigger] t[i] != 0 ==> entry_justified(t, i)
}

/// A table update that leaves every other entry alone and justifies the
/// written entry keeps the whole table justified.
proof fn lemma_justified_update(pre: Seq<u64>, post: Seq<u64>, i0: int)
    requires
        pre.len() == ATTACK_TABLE_LEN,
        post.len() == ATTACK_TABLE_LEN,
        table_justified(pre),
        forall|i: int| 0 <= i < ATTACK_TABLE_LEN && i != i0 ==> #[trigger] post[i] == pre[i],
        post[i0] != 0 ==> entry_justified(post, i0),
    ensures
        table_justified(post),
{
    assert forall|i: int|
        0 <= i < ATTACK_TABLE_LEN && #[trigger] post[i] != 0 implies entry_justified(
        post,
        i,
    ) by {
        if i != i0 {
            assert(pre[i] == post[i]);
            assert(entry_justified(pre, i));
            if exists|q: int, s: u64|
                #![trigger rook_index(q, s)]
                0 <= q < 64 && s & rook_mask(q) == s && rook_index(q, s) == i && rook_rays(q, s)
                    == pre[i] {
                let (q0, s0) = choose|q: int, s: u64|
                    0 <= q < 64 && s & rook_mask(q) == s && #[trigger] rook_index(q, s) == i
                        && rook_rays(q, s) == pre[i];
                assert(rook_index(q0, s0) == i && rook_rays(q0, s0) == post[i]);
            } else {
                let (q0, s0) = choose|q: int, s: u64|
                    0 <= q < 64 && s & bishop_mask(q) == s && #[trigger] bishop_index(q, s) == i
                        && bishop_rays(q, s) == pre[i];
                assert(bishop_index(q0, s0) == i && bishop_rays(q0, s0) == post[i]);
            }
        }
    }
}

/// The magic sliding-attack tables: one shared flat table, read through
/// the per-square `Magic` entries of both families.
pub struct AttackTables {
    table: Vec<u64>,
}

impl AttackTables {
    /// The table answers every masked occupancy query of either family,
    /// on every square, with the ray-walked attack set.
    pub closed spec fn wf(self) -> bool {
        &&& self.table@.len() == ATTACK_TABLE_LEN
        &&& forall|sq: int, s: u64|
            0 <= sq < 64 && s & rook_mask(sq) == s ==> #[trigger] rook_entry_ok(
                self.table@,
                sq,
                s,
            )
        &&& forall|sq: int, s: u64|
            0 <= sq < 64 && s & bishop_mask(sq) == s ==> #[trigger] bishop_entry_ok(
                self.table@,
                sq,
                s,
            )
    }

    /// Reads the rook attack set of `sq` for the occupancy `occupied`
    /// from the table: exactly the ray-walked attack set of the occupancy
    /// restricted to the relevant mask.
    pub fn rook_attacks(&self, sq: Square, occupied: u64) -> (r: u64)
        requires
            self.wf(),
        ensures
            r == rook_rays(sq.idx(), occupied & rook_mask(sq.idx())),
    {
        let m = rook_magic(sq.index());
        let subset = occupied & m.mask;
        proof {
            let mk = m.mask;
            assert((occupied & mk) & mk == occupied & mk) by (bit_vector);
            assert(rook_entry_ok(self.table@, sq.idx(), subset));
        }
        let idx = (m.factor.wrapping_mul(subset) >> ROOK_SHIFT) as usize + m.offset;
        self.table[idx]
    }

    /// Reads the bishop attack set of `sq` for the occupancy `occupied`
    /// from the table: exactly the ray-walked attack set of the occupancy
    /// restricted to the relevant mask.
    pub fn bishop_attacks(&self, sq: Square, occupied: u64) -> (r: u64)
        requires
            self.wf(),
        ensures
            r == bishop_rays(sq.idx(), occupied & bishop_mask(sq.idx())),
    {
        let m = bishop_magic(sq.index());
        let subset = occupied & m.mask;
        proof {
            let mk = m.mask;
            assert((occupied & mk) & mk == occupied & mk) by (bit_vector);
            assert(bishop_entry_ok(self.table@, sq.idx(), subset));
        }
        let idx = (m.factor.wrapping_mul(subset) >> BISHOP_SHIFT) as usize + m.offset;
        self.table[idx]
    }

    /// Reads the queen attack set of `sq` for the occupancy `occupied`:
    /// the rook and bishop sets combined by exclusive or, which equals
    /// their union since the two are disjoint.
    pub fn queen_attacks(&self, sq: Square, occupied: u64) -> (r: u64)
        requires
            self.wf(),
        ensures
            r == rook_rays(sq.idx(), occupied & rook_mask(sq.idx())) ^ bishop_rays(
                sq.idx(),
                occupied & bishop_mask(sq.idx()),
            ),
            r == rook_rays(sq.idx(), occupied & rook_mask(sq.idx())) | bishop_rays(
                sq.idx(),
                occupied & bishop_mask(sq.idx()),
            ),
    {
        proof {
            crate::square::lemma_square_idx_bounds(sq);
            crate::attacks::lemma_rook_bishop_disjoint(
                sq.idx(),
                occupied & rook_mask(sq.idx()),
                occupied & bishop_mask(sq.idx()),
            );
            crate::bitboard::lemma_word_facts();
            let a = rook_rays(sq.idx(), occupied & rook_mask(sq.idx()));
            let b = bishop_rays(sq.idx(), occupied & bishop_mask(sq.idx()));
            assert(a ^ b == (a | b));
        }
        self.rook_attacks(sq, occupied) ^ self.bishop_attacks(sq, occupied)
    }
}

/// Fills the rook entries of square `sq`, enumerating every occupancy
/// subset of its mask. Returns false on an index out of range or on a
/// collision with a different attack set; never turns a non-zero entry
/// into another value.
#[verifier::rlimit(60)]
fn fill_rook_square(table: &mut Vec<u64>, sq: usize) -> (ok: bool)
    requires
        old(table)@.len() == ATTACK_TABLE_LEN,
        sq < 64,
        table_justified(old(table)@),
    ensures
        final(table)@.len() == ATTACK_TABLE_LEN,
        table_justified(final(table)@),
        forall|i: int|
            0 <= i < ATTACK_TABLE_LEN && old(table)@[i] != 0 ==> #[trigger] final(table)@[i]
                == old(table)@[i],
        ok ==> forall|s: u64|
            s & rook_mask(sq as int) == s ==> #[trigger] rook_entry_ok(final(table)@, sq as int, s),
        ok ==> popcount(rook_mask(sq as int)) <= 12,
        !ok ==> !magics_consistent(),
{
    let square = Square::new_unchecked(sq as u8);
    let m = rook_magic(sq);
    let bits = count_bits(m.mask);
    if bits > 12 {
        proof {
            assert(!magics_width_ok()) by {
                if magics_width_ok() {
                    assert(popcount(rook_mask(sq as int)) <= 12);
                }
            }
        }
        return false;
    }
    proof {
        vstd::arithmetic::power2::lemma2_to64();
        vstd::bits::lemma_u64_shl_is_mul(1u64, bits);
        if popcount(m.mask) < 12 {
            vstd::arithmetic::power2::lemma_pow2_strictly_increases(popcount(m.mask), 12);
        }
    }
    let count: u64 = 1u64 << bits;
    let mut k: u64 = 0;
    while k < count
        invariant
            table@.len() == ATTACK_TABLE_LEN,
            sq < 64,
            k <= count,
            count == vstd::arithmetic::power2::pow2(popcount(m.mask)),
            m.mask == rook_mask(sq as int),
            m.factor == rook_factor(sq as int),
            m.offset == rook_offset(sq as int),
            square.idx() == sq as int,
            table_justified(table@),
            forall|i: int|
                0 <= i < ATTACK_TABLE_LEN && old(table)@[i] != 0 ==> #[trigger] table@[i] == old(
                    table,
                )@[i],
            forall|k2: u64|
                k2 < k ==> #[trigger] rook_entry_ok(table@, sq as int, deposit(k2, m.mask)),
        decreases count - k,
    {
        let subset = deposit_bits(k, m.mask);
        proof {
            lemma_deposit_subset(k, m.mask);
            crate::attacks::lemma_rook_rays_nonempty(sq as int, subset);
        }
        let attack = crate::attacks::rook_attacks(square, subset);
        let hash = m.factor.wrapping_mul(subset) >> ROOK_SHIFT;
        proof {
            let f = m.factor;
            assert((f.wrapping_mul(subset) >> 52u64) < 4096) by (bit_vector);
        }
        if m.offset >= ATTACK_TABLE_LEN {
            proof {
                assert(!magics_index_ok()) by {
                    if magics_index_ok() {
                        assert(0 <= rook_index(sq as int, subset) < ATTACK_TABLE_LEN);
                    }
                }
            }
            return false;
        }
        let idx = hash as usize + m.offset;
        if idx >= ATTACK_TABLE_LEN {
            proof {
                assert(!magics_index_ok()) by {
                    if magics_index_ok() {
                        assert(0 <= rook_index(sq as int, subset) < ATTACK_TABLE_LEN);
                    }
                }
            }
            return false;
        }
        let cur = table[idx];
        if cur != 0 && cur != attack {
            proof {
                assert(entry_justified(table@, idx as int));
                assert(rook_index(sq as int, subset) == idx as int || bishop_index(
                    sq as int,
                    subset,
                ) == idx as int);
                assert(!magics_collision_free()) by {
                    if magics_collision_free() {
                        if exists|q: int, s: u64|
                            #![trigger rook_index(q, s)]
                            0 <= q < 64 && s & rook_mask(q) == s && rook_index(q, s)
                                == idx as int && rook_rays(q, s) == cur {
                            let (q0, s0) = choose|q: int, s: u64|
                                0 <= q < 64 && s & rook_mask(q) == s && #[trigger] rook_index(
                                    q,
                                    s,
                                ) == idx as int && rook_rays(q, s) == cur;
                            assert(rook_rays(q0, s0) == rook_rays(sq as int, subset));
                        } else {
                            let (q0, s0) = choose|q: int, s: u64|
                                0 <= q < 64 && s & bishop_mask(q) == s && #[trigger] bishop_index(
                                    q,
                                    s,
                                ) == idx as int && bishop_rays(q, s) == cur;
                            assert(bishop_rays(q0, s0) == rook_rays(sq as int, subset));
                        }
                    }
                }
            }
            return false;
        }
        let ghost pre = table@;
        table[idx] = attack;
        proof {
            assert(rook_index(sq as int, subset) == idx as int && rook_rays(sq as int, subset)
                == table@[idx as int]);
            assert(entry_justified(table@, idx as int));
            lemma_justified_update(pre, table@, idx as int);
            assert forall|k2: u64| k2 < k + 1 implies #[trigger] rook_entry_ok(
                table@,
                sq as int,
                deposit(k2, m.mask),
            ) by {
                if k2 < k {
                    assert(rook_entry_ok(pre, sq as int, deposit(k2, m.mask)));
                    if rook_index(sq as int, deposit(k2, m.mask)) == idx as int {
                        assert(pre[idx as int] == rook_rays(sq as int, deposit(k2, m.mask)));
                        assert(cur == attack);
                    }
                } else {
                    assert(deposit(k2, m.mask) == subset);
                    assert(rook_index(sq as int, subset) == idx as int);
                }
            }
        }
        k = k + 1;
    }
    proof {
        assert forall|s: u64| s & rook_mask(sq as int) == s implies #[trigger] rook_entry_ok(
            table@,
            sq as int,
            s,
        ) by {
            lemma_deposit_extract(s, m.mask);
            let kk = extract(s, m.mask);
            assert(rook_entry_ok(table@, sq as int, deposit(kk, m.mask)));
        }
    }
    true
}

/// Fills the bishop entries of square `sq`, enumerating every occupancy
/// subset of its mask. Returns false on an index out of range or on a
/// collision with a different attack set; never turns a non-zero entry
/// into another value.
#[verifier::rlimit(60)]
fn fill_bishop_square(table: &mut Vec<u64>, sq: usize) -> (ok: bool)
    requires
        old(table)@.len() == ATTACK_TABLE_LEN,
        sq < 64,
        table_justified(old(table)@),
    ensures
        final(table)@.len() == ATTACK_TABLE_LEN,
        table_justified(final(table)@),
        forall|i: int|
            0 <= i < ATTACK_TABLE_LEN && old(table)@[i] != 0 ==> #[trigger] final(table)@[i]
                == old(table)@[i],
        ok ==> forall|s: u64|
            s & bishop_mask(sq as int) == s ==> #[trigger] bishop_entry_ok(final(table)@, sq as int, s),
        ok ==> popcount(bishop_mask(sq as int)) <= 12,
        !ok ==> !magics_consistent(),
{
    let square = Square::new_unchecked(sq as u8);
    let m = bishop_magic(sq);
    let bits = count_bits(m.mask);
    if bits > 12 {
        proof {
            assert(!magics_width_ok()) by {
                if magics_width_ok() {
                    assert(popcount(bishop_mask(sq as int)) <= 12);
                }
            }
        }
        return false;
    }
    proof {
        vstd::arithmetic::power2::lemma2_to64();
        vstd::bits::lemma_u64_shl_is_mul(1u64, bits);
        if popcount(m.mask) < 12 {
            vstd::arithmetic::power2::lemma_pow2_strictly_increases(popcount(m.mask), 12);
        }
    }
    let count: u64 = 1u64 << bits;
    let mut k: u64 = 0;
    while k < count
        invariant
            table@.len() == ATTACK_TABLE_LEN,
            sq < 64,
            k <= count,
            count == vstd::arithmetic::power2::pow2(popcount(m.mask)),
            m.mask == bishop_mask(sq as int),
            m.factor == bishop_factor(sq as int),
            m.offset == bishop_offset(sq as int),
            square.idx() == sq as int,
            table_justified(table@),
            forall|i: int|
                0 <= i < ATTACK_TABLE_LEN && old(table)@[i] != 0 ==> #[trigger] table@[i] == old(
                    table,
                )@[i],
            forall|k2: u64|
                k2 < k ==> #[trigger] bishop_entry_ok(table@, sq as int, deposit(k2, m.mask)),
        decreases count - k,
    {
        let subset = deposit_bits(k, m.mask);
        proof {
            lemma_deposit_subset(k, m.mask);
            crate::attacks::lemma_bishop_rays_nonempty(sq as int, subset);
        }
        let attack = crate::attacks::bishop_attacks(square, subset);
        let hash = m.factor.wrapping_mul(subset) >> BISHOP_SHIFT;
        proof {
            let f = m.factor;
            assert((f.wrapping_mul(subset) >> 55u64) < 512) by (bit_vector);
        }
        if m.offset >= ATTACK_TABLE_LEN {
            proof {
                assert(!magics_index_ok()) by {
                    if magics_index_ok() {
                        assert(0 <= bishop_index(sq as int, subset) < ATTACK_TABLE_LEN);
                    }
                }
            }
            return false;
        }
        let idx = hash as usize + m.offset;
        if idx >= ATTACK_TABLE_LEN {
            proof {
                assert(!magics_index_ok()) by {
                    if magics_index_ok() {
                        assert(0 <= bishop_index(sq as int, subset) < ATTACK_TABLE_LEN);
                    }
                }
            }
            return false;
        }
        let cur = table[idx];
        if cur != 0 && cur != attack {
            proof {
                assert(entry_justified(table@, idx as int));
                assert(rook_index(sq as int, subset) == idx as int || bishop_index(
                    sq as int,
                    subset,
                ) == idx as int);
                assert(!magics_collision_free()) by {
                    if magics_collision_free() {
                        if exists|q: int, s: u64|
                            #![trigger rook_index(q, s)]
                            0 <= q < 64 && s & rook_mask(q) == s && rook_index(q, s)
                                == idx as int && rook_rays(q, s) == cur {
                            let (q0, s0) = choose|q: int, s: u64|
                                0 <= q < 64 && s & rook_mask(q) == s && #[trigger] rook_index(
                                    q,
                                    s,
                                ) == idx as int && rook_rays(q, s) == cur;
                            assert(rook_rays(q0, s0) == bishop_rays(sq as int, subset));
                        } else {
                            let (q0, s0) = choose|q: int, s: u64|
                                0 <= q < 64 && s & bishop_mask(q) == s && #[trigger] bishop_index(
                                    q,
                                    s,
                                ) == idx as int && bishop_rays(q, s) == cur;
                            assert(bishop_rays(q0, s0) == bishop_rays(sq as int, subset));
                        }
                    }
                }
            }
            return false;
        }
        let ghost pre = table@;
        table[idx] = attack;
        proof {
            assert(bishop_index(sq as int, subset) == idx as int && bishop_rays(sq as int, subset)
                == table@[idx as int]);
            assert(entry_justified(table@, idx as int));
            lemma_justified_update(pre, table@, idx as int);
            assert forall|k2: u64| k2 < k + 1 implies #[trigger] bishop_entry_ok(
                table@,
                sq as int,
                deposit(k2, m.mask),
            ) by {
                if k2 < k {
                    assert(bishop_entry_ok(pre, sq as int, deposit(k2, m.mask)));
                    if bishop_index(sq as int, deposit(k2, m.mask)) == idx as int {
                        assert(pre[idx as int] == bishop_rays(sq as int, deposit(k2, m.mask)));
                        assert(cur == attack);
                    }
                } else {
                    assert(deposit(k2, m.mask) == subset);
                    assert(bishop_index(sq as int, subset) == idx as int);
                }
            }
        }
        k = k + 1;
    }
    proof {
        assert forall|s: u64| s & bishop_mask(sq as int) == s implies #[trigger] bishop_entry_ok(
            table@,
            sq as int,
            s,
        ) by {
            lemma_deposit_extract(s, m.mask);
            let kk = extract(s, m.mask);
            assert(bishop_entry_ok(table@, sq as int, deposit(kk, m.mask)));
        }
    }
    true
}

/// Builds the shared attack table from the magic constants, re-deriving
/// every entry from the ray-walk ground truth. Every occupancy subset of
/// every mask is enumerated; a table index out of range, or two subsets
/// colliding on an index with different attack sets, aborts the build,
/// since no correct table could be served. The tables returned on
/// success satisfy [`AttackTables::wf`]: every masked query answers with
/// the ray-walked attack set.
pub fn bootstrap_magics() -> (r: Result<AttackTables, &'static str>)
    ensures
        r is Ok <==> magics_consistent(),
        r matches Ok(t) ==> t.wf(),
{
    let mut table: Vec<u64> = Vec::new();
    while table.len() < ATTACK_TABLE_LEN
        invariant
            table@.len() <= ATTACK_TABLE_LEN,
            forall|j: int| 0 <= j < table@.len() ==> #[trigger] table@[j] == 0,
        decreases ATTACK_TABLE_LEN - table@.len(),
    {
        table.push(0);
    }
    let mut sq: usize = 0;
    while sq < 64
        invariant
            table@.len() == ATTACK_TABLE_LEN,
            sq <= 64,
            table_justified(table@),
            forall|q: int| 0 <= q < sq ==> popcount(#[trigger] rook_mask(q)) <= 12,
            forall|q: int| 0 <= q < sq ==> popcount(#[trigger] bishop_mask(q)) <= 12,
            forall|q: int, s: u64|
                0 <= q < sq && s & bishop_mask(q) == s ==> #[trigger] bishop_entry_ok(
                    table@,
                    q,
                    s,
                ),
            forall|q: int, s: u64|
                0 <= q < sq && s & rook_mask(q) == s ==> #[trigger] rook_entry_ok(table@, q, s),
        decreases 64 - sq,
    {
        let ghost t0 = table@;
        if !fill_bishop_square(&mut table, sq) {
            return Err("magic bishop table entries collide");
        }
        let ghost t1 = table@;
        if !fill_rook_square(&mut table, sq) {
            return Err("magic rook table entries collide");
        }
        proof {
            assert forall|q: int, s: u64|
                0 <= q < sq + 1 && s & bishop_mask(q) == s implies #[trigger] bishop_entry_ok(
                table@,
                q,
                s,
            ) by {
                if q < sq {
                    assert(bishop_entry_ok(t0, q, s));
                    assert(t1[bishop_index(q, s)] == t0[bishop_index(q, s)]);
                    assert(table@[bishop_index(q, s)] == t1[bishop_index(q, s)]);
                } else {
                    assert(bishop_entry_ok(t1, q, s));
                    assert(table@[bishop_index(q, s)] == t1[bishop_index(q, s)]);
                }
            }
            assert forall|q: int, s: u64|
                0 <= q < sq + 1 && s & rook_mask(q) == s implies #[trigger] rook_entry_ok(
                table@,
                q,
                s,
            ) by {
                if q < sq {
                    assert(rook_entry_ok(t0, q, s));
                    assert(t1[rook_index(q, s)] == t0[rook_index(q, s)]);
                    assert(table@[rook_index(q, s)] == t1[rook_index(q, s)]);
                } else {
                    assert(rook_entry_ok(table@, q, s));
                }
            }
        }
        sq = sq + 1;
    }
    proof {
        assert forall|q1: int, s1: u64|
            0 <= q1 < 64 && s1 & rook_mask(q1) == s1 implies 0 <= #[trigger] rook_index(q1, s1)
            < ATTACK_TABLE_LEN && table@[rook_index(q1, s1)] == rook_rays(q1, s1) by {
            assert(rook_entry_ok(table@, q1, s1));
        }
        assert forall|q1: int, s1: u64|
            0 <= q1 < 64 && s1 & bishop_mask(q1) == s1 implies 0 <= #[trigger] bishop_index(
            q1,
            s1,
        ) < ATTACK_TABLE_LEN && table@[bishop_index(q1, s1)] == bishop_rays(q1, s1) by {
            assert(bishop_entry_ok(table@, q1, s1));
        }
        assert(magics_width_ok());
        assert(magics_index_ok());
        assert(magics_collision_free());
    }
    Ok(AttackTables { table })
}

} // verus!
