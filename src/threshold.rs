use vstd::prelude::*;

verus! {

/// The fraction of a group whose votes a quorum needs.
#[derive(Debug, Clone, Copy, PartialEq, Eq, Structural, PartialOrd, Ord, Hash)]
pub enum ThresholdStatus {
    All,
    Third,
    Half,
    TwoThirds,
}

/// Integer division rounded up.
pub open spec fn ceil_div(a: int, b: int) -> int
    recommends
        b > 0,
{
    (a + b - 1) / b
}

/// The smallest number of votes that reaches `status` in a group of `group_size`.
pub open spec fn required_votes(status: ThresholdStatus, group_size: int) -> int {
    match status {
        ThresholdStatus::All => group_size,
        ThresholdStatus::Third => ceil_div(group_size, 3),
        ThresholdStatus::Half => ceil_div(group_size, 2),
        ThresholdStatus::TwoThirds => ceil_div(2 * group_size, 3),
    }
}

impl ThresholdStatus {
    /// The number of votes needed out of `group_size`, rounded up, computed
    /// in integers so that it is exact for every size.
    pub fn calculate_threshold(&self, group_size: usize) -> (r: usize)
        ensures
            r == required_votes(*self, group_size as int),
            r <= group_size,
    {
        match self {
            ThresholdStatus::All => group_size,
            ThresholdStatus::Third => {
                let q: usize = group_size / 3;
                if group_size % 3 == 0 {
                    q
                } else {
                    q + 1
                }
            },
            ThresholdStatus::Half => {
                let q: usize = group_size / 2;
                if group_size % 2 == 0 {
                    q
                } else {
                    q + 1
                }
            },
            ThresholdStatus::TwoThirds => {
                let g: usize = group_size;
                let r: usize = g - g / 3;
                assert(r == (2 * g + 2) / 3) by (nonlinear_arith)
                    requires
                        r == g - g / 3,
                ;
                r
            },
        }
    }
}

} // verus!
