//! Completion percentages in fixed point.

use vstd::prelude::*;

verus! {

/// Hundredths of a percentage point in one percentage point.
pub const HUNDREDTHS_PER_POINT: u32 = 100;

/// The value of a finished transfer, in hundredths of a percentage point.
pub const FULL_HUNDREDTHS: u32 = 10_000;

/// Hundredths of a percentage point that `done` is of `total`, rounded down
/// and held at 100 percent. A total of zero counts as finished.
pub open spec fn ratio_hundredths(done: nat, total: nat) -> nat {
    if total == 0 || done >= total {
        FULL_HUNDREDTHS as nat
    } else {
        (done * FULL_HUNDREDTHS as nat) / total
    }
}

/// `value` held at 100 percent.
pub open spec fn capped_hundredths(value: nat) -> nat {
    if value >= FULL_HUNDREDTHS as nat {
        FULL_HUNDREDTHS as nat
    } else {
        value
    }
}

/// A completion percentage between 0 and 100, kept in hundredths of a
/// percentage point.
#[derive(Clone, Copy, Debug, PartialEq, Eq, Structural)]
pub struct Percent {
    hundredths: u32,
}

impl View for Percent {
    type V = nat;

    closed spec fn view(&self) -> nat {
        capped_hundredths(self.hundredths as nat)
    }
}

impl Percent {
    #[verifier::type_invariant]
    closed spec fn in_range(self) -> bool {
        self.hundredths <= FULL_HUNDREDTHS
    }

    /// No percentage exceeds 100.
    pub proof fn lemma_bounded(self)
        ensures
            self@ <= FULL_HUNDREDTHS,
    {
    }

    /// Zero percent.
    pub fn zero() -> (percent: Percent)
        ensures
            percent@ == 0,
    {
        Percent { hundredths: 0 }
    }

    /// One hundred percent.
    pub fn full() -> (percent: Percent)
        ensures
            percent@ == FULL_HUNDREDTHS,
    {
        Percent { hundredths: FULL_HUNDREDTHS }
    }

    /// The percentage of `hundredths` hundredths of a point, held at 100.
    pub fn from_hundredths(hundredths: u32) -> (percent: Percent)
        ensures
            percent@ == capped_hundredths(hundredths as nat),
    {
        if hundredths >= FULL_HUNDREDTHS {
            Percent { hundredths: FULL_HUNDREDTHS }
        } else {
            Percent { hundredths }
        }
    }

    /// The percentage of `points` whole percentage points, held at 100.
    pub fn from_points(points: u64) -> (percent: Percent)
        ensures
            percent@ == capped_hundredths(points as nat * HUNDREDTHS_PER_POINT as nat),
    {
        if points >= 100 {
            Percent { hundredths: FULL_HUNDREDTHS }
        } else {
            let points: u32 = points as u32;
            Percent { hundredths: points * HUNDREDTHS_PER_POINT }
        }
    }

    /// The share of `total` that `done` is.
    pub fn ratio(done: u64, total: u64) -> (percent: Percent)
        ensures
            percent@ == ratio_hundredths(done as nat, total as nat),
    {
        if total == 0 || done >= total {
            Percent { hundredths: FULL_HUNDREDTHS }
        } else {
            assert(done as u128 * FULL_HUNDREDTHS as u128 <= u128::MAX) by (nonlinear_arith)
                requires
                    done <= u64::MAX,
                    FULL_HUNDREDTHS == 10_000,
            ;
            let scaled: u128 = done as u128 * FULL_HUNDREDTHS as u128;
            let quotient: u128 = scaled / total as u128;
            assert(quotient < FULL_HUNDREDTHS) by (nonlinear_arith)
                requires
                    quotient == (done * FULL_HUNDREDTHS) / (total as int),
                    0 <= done < total,
            ;
            Percent { hundredths: quotient as u32 }
        }
    }

    /// The value in hundredths of a percentage point.
    pub fn hundredths(&self) -> (value: u32)
        ensures
            value == self@,
            value <= FULL_HUNDREDTHS,
    {
        proof {
            use_type_invariant(self);
        }
        self.hundredths
    }

    /// Whether the value is exactly 100 percent.
    pub fn is_full(&self) -> (full: bool)
        ensures
            full == (self@ == FULL_HUNDREDTHS),
    {
        proof {
            use_type_invariant(self);
        }
        self.hundredths == FULL_HUNDREDTHS
    }

    /// The distance to `other`, in hundredths of a percentage point.
    pub fn distance(&self, other: &Percent) -> (gap: u32)
        ensures
            gap == vstd::math::abs(self@ - other@),
    {
        proof {
            use_type_invariant(self);
            use_type_invariant(other);
        }
        if self.hundredths >= other.hundredths {
            self.hundredths - other.hundredths
        } else {
            other.hundredths - self.hundredths
        }
    }
}

} // verus!
