use jsync::percent::Percent;

#[test]
fn ratio_of_a_quarter() {
    assert_eq!(Percent::ratio(50, 200).hundredths(), 2500);
}

#[test]
fn ratio_rounds_down() {
    assert_eq!(Percent::ratio(1, 3).hundredths(), 3333);
    assert_eq!(Percent::ratio(2, 3).hundredths(), 6666);
    assert_eq!(Percent::ratio(9999, 10000).hundredths(), 9999);
}

#[test]
fn ratio_of_nothing_is_full() {
    assert_eq!(Percent::ratio(0, 0).hundredths(), 10_000);
    assert_eq!(Percent::ratio(7, 0).hundredths(), 10_000);
}

#[test]
fn ratio_is_held_at_full() {
    assert_eq!(Percent::ratio(300, 200).hundredths(), 10_000);
    assert_eq!(Percent::ratio(u64::MAX, u64::MAX).hundredths(), 10_000);
    assert_eq!(Percent::ratio(u64::MAX - 1, u64::MAX).hundredths(), 9_999);
}

#[test]
fn ratio_of_zero_done() {
    assert_eq!(Percent::ratio(0, 5).hundredths(), 0);
}

#[test]
fn points_are_scaled_and_capped() {
    assert_eq!(Percent::from_points(0).hundredths(), 0);
    assert_eq!(Percent::from_points(53).hundredths(), 5300);
    assert_eq!(Percent::from_points(100).hundredths(), 10_000);
    assert_eq!(Percent::from_points(101).hundredths(), 10_000);
    assert_eq!(Percent::from_points(u64::MAX).hundredths(), 10_000);
}

#[test]
fn hundredths_are_capped() {
    assert_eq!(Percent::from_hundredths(5005).hundredths(), 5005);
    assert_eq!(Percent::from_hundredths(10_001).hundredths(), 10_000);
    assert_eq!(Percent::from_hundredths(u32::MAX).hundredths(), 10_000);
}

#[test]
fn zero_and_full() {
    assert_eq!(Percent::zero().hundredths(), 0);
    assert_eq!(Percent::full().hundredths(), 10_000);
    assert!(Percent::full().is_full());
    assert!(!Percent::from_hundredths(9_999).is_full());
}

#[test]
fn distance_is_symmetric() {
    let low = Percent::from_hundredths(5000);
    let high = Percent::from_hundredths(5005);
    assert_eq!(low.distance(&high), 5);
    assert_eq!(high.distance(&low), 5);
    assert_eq!(low.distance(&low), 0);
}
