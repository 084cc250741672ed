//! Board ranks `One` through `Eight`: dense indexing and bounded index
//! arithmetic.

use vstd::prelude::*;

use crate::consts::File;
use crate::consts::Rank;
use crate::consts::Square;

verus! {

impl Rank {
    /// The dense index of this rank: `One` is `0`, `Eight` is `7`.
    pub open spec fn idx(self) -> int {
        match self {
            Rank::One => 0,
            Rank::Two => 1,
            Rank::Three => 2,
            Rank::Four => 3,
            Rank::Five => 4,
            Rank::Six => 5,
            Rank::Seven => 6,
            Rank::Eight => 7,
        }
    }

    /// The distance between two ranks along the file direction.
    pub fn abs_diff(self, other: Self) -> (r: u8)
        ensures
            r as int == if self.idx() >= other.idx() {
                self.idx() - other.idx()
            } else {
                other.idx() - self.idx()
            },
    {
        let a = self.inner();
        let b = other.inner();
        if a >= b {
            a - b
        } else {
            b - a
        }
    }

    /// The rank of index `index`, or `None` when `index` is out of range.
    pub fn from_index(index: u8) -> (r: Option<Rank>)
        ensures
            r is Some <==> index < 8,
            index < 8 ==> r->Some_0.idx() == index as int,
    {
        match index {
            0 => Some(Rank::One),
            1 => Some(Rank::Two),
            2 => Some(Rank::Three),
            3 => Some(Rank::Four),
            4 => Some(Rank::Five),
            5 => Some(Rank::Six),
            6 => Some(Rank::Seven),
            7 => Some(Rank::Eight),
            _ => None,
        }
    }

    /// The rank `diff` rows to the north, or `None` past rank `Eight`.
    pub fn add(self, diff: u8) -> (r: Option<Rank>)
        ensures
            r is Some <==> self.idx() + diff < 8,
            self.idx() + diff < 8 ==> r->Some_0.idx() == self.idx() + diff,
    {
        let sum = self.inner() as u16 + diff as u16;
        if sum < 8 {
            Rank::from_index(sum as u8)
        } else {
            None
        }
    }

    /// The rank `diff` rows to the south, or `None` past rank `One`.
    pub fn sub(self, diff: u8) -> (r: Option<Rank>)
        ensures
            r is Some <==> diff <= self.idx(),
            diff <= self.idx() ==> r->Some_0.idx() == self.idx() - diff,
    {
        let inner = self.inner();
        if diff <= inner {
            Rank::from_index(inner - diff)
        } else {
            None
        }
    }

    /// All eight ranks, in index order.
    pub fn all() -> (r: Vec<Rank>)
        ensures
            r@ =~= seq![
                Rank::One,
                Rank::Two,
                Rank::Three,
                Rank::Four,
                Rank::Five,
                Rank::Six,
                Rank::Seven,
                Rank::Eight,
            ],
    {
        let mut v: Vec<Rank> = Vec::new();
        v.push(Rank::One);
        v.push(Rank::Two);
        v.push(Rank::Three);
        v.push(Rank::Four);
        v.push(Rank::Five);
        v.push(Rank::Six);
        v.push(Rank::Seven);
        v.push(Rank::Eight);
        v
    }

    /// The square on this rank and the given file.
    pub fn with(self, file: File) -> (r: Square)
        ensures
            r.idx() == self.idx() * 8 + file.idx(),
    {
        Square::from_rank_file(self, file)
    }

    /// The dense index of this rank, as a `u8`.
    pub fn inner(self) -> (r: u8)
        ensures
            r as int == self.idx(),
            r < 8,
    {
        match self {
            Rank::One => 0,
            Rank::Two => 1,
            Rank::Three => 2,
            Rank::Four => 3,
            Rank::Five => 4,
            Rank::Six => 5,
            Rank::Seven => 6,
            Rank::Eight => 7,
        }
    }
}


} // verus!
