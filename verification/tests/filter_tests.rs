use jsync::filter::{EmissionFilter, FREE_TEXT_THRESHOLD, STRUCTURED_THRESHOLD};
use jsync::percent::Percent;
use jsync::progress::ParserVariant;

#[test]
fn close_samples_do_not_both_pass() {
    let mut filter = EmissionFilter::new(10);
    assert!(filter.offer(Percent::from_hundredths(5000)));
    assert!(!filter.offer(Percent::from_hundredths(5005)));
    assert_eq!(filter.last().hundredths(), 5000);
}

#[test]
fn rise_then_full_both_pass_whatever_the_threshold() {
    for threshold in [0u32, 1, 10, 100, 2500, 5000] {
        let mut filter = EmissionFilter::new(threshold);
        assert!(filter.offer(Percent::from_hundredths(5000)));
        assert!(filter.offer(Percent::full()));
    }
}

#[test]
fn full_passes_even_when_repeated() {
    let mut filter = EmissionFilter::new(u32::MAX);
    assert!(!filter.offer(Percent::from_hundredths(5000)));
    assert!(filter.offer(Percent::full()));
    assert!(filter.offer(Percent::full()));
    assert_eq!(filter.last().hundredths(), 10_000);
}

#[test]
fn a_change_of_exactly_the_threshold_passes() {
    let mut filter = EmissionFilter::new(10);
    assert!(filter.offer(Percent::from_hundredths(10)));
    assert!(!filter.offer(Percent::from_hundredths(19)));
    assert!(filter.offer(Percent::from_hundredths(20)));
    assert!(filter.offer(Percent::from_hundredths(10)));
}

#[test]
fn a_first_sample_of_zero_is_held_back() {
    let mut filter = EmissionFilter::new(10);
    assert!(!filter.offer(Percent::zero()));
    assert_eq!(filter.last().hundredths(), 0);
}

#[test]
fn a_held_sample_does_not_move_the_reference() {
    let mut filter = EmissionFilter::new(10);
    assert!(filter.offer(Percent::from_hundredths(5000)));
    assert!(!filter.offer(Percent::from_hundredths(5005)));
    assert!(filter.offer(Percent::from_hundredths(5010)));
}

#[test]
fn thresholds_by_variant() {
    assert_eq!(FREE_TEXT_THRESHOLD, 10);
    assert_eq!(STRUCTURED_THRESHOLD, 100);
    let mut text = EmissionFilter::for_variant(ParserVariant::FreeText);
    assert!(text.offer(Percent::from_hundredths(10)));
    let mut log = EmissionFilter::for_variant(ParserVariant::StructuredLog);
    assert!(!log.offer(Percent::from_hundredths(99)));
    assert!(log.offer(Percent::from_hundredths(100)));
}
