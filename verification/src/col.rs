//! The two piece colours and their dense indexing.

use vstd::prelude::*;

use crate::consts::Col;

verus! {

impl Col {
    /// The dense index of this colour: white is `0`, black is `1`.
    pub open spec fn idx(self) -> int {
        match self {
            Col::White => 0,
            Col::Black => 1,
        }
    }

    /// The opposite colour.
    pub open spec fn flipped(self) -> Col {
        match self {
            Col::White => Col::Black,
            Col::Black => Col::White,
        }
    }

    /// The colour selected by `v`: black when `v` is true, else white.
    pub fn new(v: bool) -> (r: Col)
        ensures
            r == if v {
                Col::Black
            } else {
                Col::White
            },
    {
        if v {
            Col::Black
        } else {
            Col::White
        }
    }

    /// The opposite colour; flipping twice restores the argument.
    pub fn flip(self) -> (r: Col)
        ensures
            r == self.flipped(),
            r.flipped() == self,
    {
        match self {
            Col::White => Col::Black,
            Col::Black => Col::White,
        }
    }

    /// The dense index of this colour, as a `usize`.
    pub fn index(self) -> (r: usize)
        ensures
            r == self.idx(),
            r < 2,
    {
        match self {
            Col::White => 0,
            Col::Black => 1,
        }
    }

    /// The dense index of this colour, as a `u8`.
    pub fn inner(self) -> (r: u8)
        ensures
            r as int == self.idx(),
            r < 2,
    {
        match self {
            Col::White => 0,
            Col::Black => 1,
        }
    }

    /// Both colours, in index order.
    pub fn all() -> (r: Vec<Col>)
        ensures
            r@ =~= seq![Col::White, Col::Black],
    {
        let mut v: Vec<Col> = Vec::new();
        v.push(Col::White);
        v.push(Col::Black);
        v
    }

    /// The one-letter name of this colour: `"w"` or `"b"`.
    pub fn name(self) -> (r: &'static str)
        ensures
            self == Col::White ==> r@ == "w"@,
            self == Col::Black ==> r@ == "b"@,
    {
        match self {
            Col::White => "w",
            Col::Black => "b",
        }
    }
}

} // verus!
