//! Suppression of progress events that differ too little from the last one.

use vstd::prelude::*;
use crate::percent::{Percent, FULL_HUNDREDTHS};
use crate::progress::ParserVariant;

verus! {

/// The least change that is republished for free-text output: a tenth of a
/// percentage point, in hundredths.
pub const FREE_TEXT_THRESHOLD: u32 = 10;

/// The least change that is republished for the structured log: one
/// percentage point, in hundredths.
pub const STRUCTURED_THRESHOLD: u32 = 100;

/// The least change that is republished for `variant`, in hundredths of a
/// percentage point.
pub open spec fn variant_threshold(variant: ParserVariant) -> nat {
    match variant {
        ParserVariant::FreeText => FREE_TEXT_THRESHOLD as nat,
        ParserVariant::StructuredLog => STRUCTURED_THRESHOLD as nat,
    }
}

/// Whether a sample of `percent` is published after one of `last`: its
/// distance from `last` reaches `threshold`, or it is exactly 100 percent.
/// All three are in hundredths of a percentage point.
pub open spec fn publishes(last: nat, threshold: nat, percent: nat) -> bool {
    vstd::math::abs(percent - last) >= threshold || percent == FULL_HUNDREDTHS
}

/// The percentage last published, after a sample of `percent` came in.
pub open spec fn last_after(last: nat, threshold: nat, percent: nat) -> nat {
    if publishes(last, threshold, percent) {
        percent
    } else {
        last
    }
}

/// Of two samples in a row that differ by less than the threshold, the
/// second is held back if the first was published, unless it is exactly
/// 100 percent.
pub proof fn lemma_close_samples_not_both(last: nat, threshold: nat, first: nat, second: nat)
    requires
        vstd::math::abs(second - first) < threshold,
        second != FULL_HUNDREDTHS,
    ensures
        !(publishes(last, threshold, first) && publishes(
            last_after(last, threshold, first),
            threshold,
            second,
        )),
{
}

/// A sample of exactly 100 percent is published whatever came before and
/// whatever the threshold.
pub proof fn lemma_full_is_published(last: nat, threshold: nat)
    ensures
        publishes(last, threshold, FULL_HUNDREDTHS as nat),
{
}

/// After a silent start, a first sample that is at least the threshold
/// above zero and a following sample of 100 percent are both published.
pub proof fn lemma_rise_then_full(threshold: nat, first: nat)
    requires
        first >= threshold,
    ensures
        publishes(0, threshold, first),
        publishes(last_after(0, threshold, first), threshold, FULL_HUNDREDTHS as nat),
{
}

/// The state of the suppression: the percentage last published and the
/// threshold, both in hundredths of a percentage point.
pub struct EmissionFilterModel {
    pub last: nat,
    pub threshold: nat,
}

/// Holds back samples that differ too little from the one last published.
#[derive(Clone, Copy, Debug)]
pub struct EmissionFilter {
    last: Percent,
    threshold: u32,
}

impl View for EmissionFilter {
    type V = EmissionFilterModel;

    closed spec fn view(&self) -> EmissionFilterModel {
        EmissionFilterModel { last: self.last@, threshold: self.threshold as nat }
    }
}

impl EmissionFilter {
    /// A filter that has published nothing yet; it starts from zero percent.
    pub fn new(threshold: u32) -> (filter: EmissionFilter)
        ensures
            filter@ == (EmissionFilterModel { last: 0, threshold: threshold as nat }),
    {
        EmissionFilter { last: Percent::zero(), threshold }
    }

    /// A filter with the threshold of `variant`.
    pub fn for_variant(variant: ParserVariant) -> (filter: EmissionFilter)
        ensures
            filter@ == (EmissionFilterModel { last: 0, threshold: variant_threshold(variant) }),
    {
        match variant {
            ParserVariant::FreeText => EmissionFilter::new(FREE_TEXT_THRESHOLD),
            ParserVariant::StructuredLog => EmissionFilter::new(STRUCTURED_THRESHOLD),
        }
    }

    /// The percentage last published.
    pub fn last(&self) -> (last: Percent)
        ensures
            last@ == self@.last,
    {
        self.last
    }

    /// Takes in a sample and says whether it is to be published; if so, it
    /// becomes the one last published.
    pub fn offer(&mut self, percent: Percent) -> (publish: bool)
        ensures
            publish == publishes(old(self)@.last, old(self)@.threshold, percent@),
            final(self)@.threshold == old(self)@.threshold,
            final(self)@.last == last_after(old(self)@.last, old(self)@.threshold, percent@),
    {
        let publish = percent.distance(&self.last) >= self.threshold || percent.is_full();
        if publish {
            self.last = percent;
        }
        publish
    }
}

} // verus!
