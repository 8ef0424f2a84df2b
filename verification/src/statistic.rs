use vstd::prelude::*;

verus! {

/// Number of histogram buckets over the unit interval.
pub const BUCKETS: usize = 100;

/// 2^32: the denominator of every statistic.
pub open spec fn denominator() -> int {
    0x1_0000_0000
}

/// The bucket of the statistic `numerator / 2^32`: the floor of a hundred
/// times its value, held to the last bucket.
pub open spec fn bucket_of(numerator: int) -> int {
    let scaled = numerator * 100 / denominator();
    if scaled > 99 {
        99
    } else {
        scaled
    }
}

/// A motion statistic: the fraction `numerator / 2^32`, a value in [0, 1).
#[derive(Clone, Copy, Debug, PartialEq, Eq, Structural)]
pub struct Statistic {
    pub numerator: u32,
}

impl Statistic {
    pub fn new(numerator: u32) -> (statistic: Statistic)
        ensures
            statistic.numerator == numerator,
    {
        Statistic { numerator }
    }

    pub fn numerator(&self) -> (numerator: u32)
        ensures
            numerator == self.numerator,
    {
        self.numerator
    }

    /// Index of the histogram bucket that this statistic falls in.
    pub fn bucket(&self) -> (index: usize)
        ensures
            index == bucket_of(self.numerator as int),
            index < BUCKETS,
    {
        let scaled: u64 = self.numerator as u64 * 100 / 0x1_0000_0000;
        if scaled > 99 {
            99
        } else {
            scaled as usize
        }
    }
}

/// Every statistic lies in [0, 1): its numerator is below the denominator.
pub proof fn lemma_statistic_below_one(statistic: Statistic)
    ensures
        0 <= statistic.numerator < denominator(),
        0 <= bucket_of(statistic.numerator as int) < BUCKETS,
{
}

} // verus!
