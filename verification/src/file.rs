//! Board files `A` through `H`: dense indexing and bounded index arithmetic.

use vstd::prelude::*;

use crate::consts::File;
use crate::consts::Rank;
use crate::consts::Square;

verus! {

impl File {
    /// The dense index of this file: `A` is `0`, `H` is `7`.
    pub open spec fn idx(self) -> int {
        match self {
            File::A => 0,
            File::B => 1,
            File::C => 2,
            File::D => 3,
            File::E => 4,
            File::F => 5,
            File::G => 6,
            File::H => 7,
        }
    }

    /// The distance between two files along the rank direction.
    pub fn abs_diff(self, other: Self) -> (r: u8)
        ensures
            r as int == if self.idx() >= other.idx() {
                self.idx() - other.idx()
            } else {
                other.idx() - self.idx()
            },
    {
        let a = self.inner();
        let b = other.inner();
        if a >= b {
            a - b
        } else {
            b - a
        }
    }

    /// The file of index `index`, or `None` when `index` is out of range.
    pub fn from_index(index: u8) -> (r: Option<File>)
        ensures
            r is Some <==> index < 8,
            index < 8 ==> r->Some_0.idx() == index as int,
    {
        match index {
            0 => Some(File::A),
            1 => Some(File::B),
            2 => Some(File::C),
            3 => Some(File::D),
            4 => Some(File::E),
            5 => Some(File::F),
            6 => Some(File::G),
            7 => Some(File::H),
            _ => None,
        }
    }

    /// The file `diff` columns to the east, or `None` past file `H`.
    pub fn add(self, diff: u8) -> (r: Option<File>)
        ensures
            r is Some <==> self.idx() + diff < 8,
            self.idx() + diff < 8 ==> r->Some_0.idx() == self.idx() + diff,
    {
        let sum = self.inner() as u16 + diff as u16;
        if sum < 8 {
            File::from_index(sum as u8)
        } else {
            None
        }
    }

    /// The file `diff` columns to the west, or `None` past file `A`.
    pub fn sub(self, diff: u8) -> (r: Option<File>)
        ensures
            r is Some <==> diff <= self.idx(),
            diff <= self.idx() ==> r->Some_0.idx() == self.idx() - diff,
    {
        let inner = self.inner();
        if diff <= inner {
            File::from_index(inner - diff)
        } else {
            None
        }
    }

    /// All eight files, in index order.
    pub fn all() -> (r: Vec<File>)
        ensures
            r@ =~= seq![
                File::A,
                File::B,
                File::C,
                File::D,
                File::E,
                File::F,
                File::G,
                File::H,
            ],
    {
        let mut v: Vec<File> = Vec::new();
        v.push(File::A);
        v.push(File::B);
        v.push(File::C);
        v.push(File::D);
        v.push(File::E);
        v.push(File::F);
        v.push(File::G);
        v.push(File::H);
        v
    }

    /// The square on this file and the given rank.
    pub fn with(self, rank: Rank) -> (r: Square)
        ensures
            r.idx() == rank.idx() * 8 + self.idx(),
    {
        Square::from_rank_file(rank, self)
    }

    /// The dense index of this file, as a `u8`.
    pub fn inner(self) -> (r: u8)
        ensures
            r as int == self.idx(),
            r < 8,
    {
        match self {
            File::A => 0,
            File::B => 1,
            File::C => 2,
            File::D => 3,
            File::E => 4,
            File::F => 5,
            File::G => 6,
            File::H => 7,
        }
    }
}


} // verus!
