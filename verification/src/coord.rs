//! Plot coordinates along the sample axis.
use vstd::prelude::*;

verus! {

/// A position on the x axis of a plot, whose unit is one sample.
///
/// The plot reports its bounds as real numbers; what the window logic reads
/// of such a number `x` is how it compares with whole numbers and where it is
/// truncated. Both are fixed by the whole numbers just below and just above
/// it: `floor` is `⌊x⌋` and `ceil` is `⌈x⌉` (both `0` for a value that is not
/// a number, and clamped to the range of `i128`). For every whole `k`,
/// `x < k` holds exactly when `floor < k`, and `x > k` exactly when `ceil > k`.
#[derive(Clone, Copy, Debug, PartialEq, Eq, Structural)]
pub struct PlotCoord {
    pub floor: i128,
    pub ceil: i128,
}

impl PlotCoord {
    /// `x as usize`: truncation toward zero, saturating at `0` and
    /// `usize::MAX`.
    pub open spec fn trunc_index(self) -> nat {
        if self.floor <= 0 {
            0
        } else if self.floor > usize::MAX {
            usize::MAX as nat
        } else {
            self.floor as nat
        }
    }

    /// The pair stands for a real number: `floor <= ceil <= floor + 1`, as
    /// the floor and ceiling of every value (and the pair taken for a value
    /// that is not a number) are.
    pub open spec fn is_real(self) -> bool {
        self.floor <= self.ceil <= self.floor + 1
    }

    /// `x < k`.
    pub open spec fn is_below(self, k: int) -> bool {
        self.floor < k
    }

    /// `x > k`.
    pub open spec fn is_above(self, k: int) -> bool {
        self.ceil > k
    }

    /// The coordinate `0.0`, where a plot's bounds start before it is drawn.
    pub fn origin() -> (c: PlotCoord)
        ensures
            c.floor == 0,
            c.ceil == 0,
    {
        PlotCoord { floor: 0, ceil: 0 }
    }

    /// `x as usize`.
    pub fn to_index(&self) -> (r: usize)
        ensures
            r == self.trunc_index(),
    {
        if self.floor <= 0 {
            0
        } else if self.floor > usize::MAX as i128 {
            usize::MAX
        } else {
            self.floor as usize
        }
    }
}

} // verus!
