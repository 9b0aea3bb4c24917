use video_scrub::buffer::{find_covering, preloaded, Fraction};

#[test]
fn find_covering_prefers_the_last_range() {
    let ranges = vec![(0u64, 10u64), (5, 20), (30, 40)];
    assert_eq!(find_covering(&ranges, 7), Some(1));
    assert_eq!(find_covering(&ranges, 2), Some(0));
    assert_eq!(find_covering(&ranges, 35), Some(2));
}

#[test]
fn find_covering_end_is_exclusive() {
    let ranges = vec![(0u64, 10u64), (30, 40)];
    assert_eq!(find_covering(&ranges, 10), None);
    assert_eq!(find_covering(&ranges, 25), None);
    assert_eq!(find_covering(&Vec::new(), 0), None);
}

#[test]
fn preloaded_is_range_end_over_duration() {
    let ranges = vec![(0u64, 4_000_000u64), (6_000_000, 8_000_000)];
    let r = preloaded(Fraction::zero(), &ranges, 7_000_000, Some(10_000_000));
    assert_eq!(r, Fraction { end: 8_000_000, total: 10_000_000 });
}

#[test]
fn preloaded_keeps_previous_value_in_a_gap() {
    let ranges = vec![(0u64, 4_000_000u64), (6_000_000, 8_000_000)];
    let previous = Fraction { end: 4_000_000, total: 10_000_000 };
    assert_eq!(preloaded(previous, &ranges, 5_000_000, Some(10_000_000)), previous);
}

#[test]
fn preloaded_ignores_unknown_or_zero_duration() {
    let ranges = vec![(0u64, 4_000_000u64)];
    let previous = Fraction { end: 1, total: 2 };
    assert_eq!(preloaded(previous, &ranges, 1, None), previous);
    assert_eq!(preloaded(previous, &ranges, 1, Some(0)), previous);
}

#[test]
fn preloaded_end_is_capped_at_duration() {
    let ranges = vec![(0u64, 12_000_000u64)];
    let r = preloaded(Fraction::zero(), &ranges, 1, Some(10_000_000));
    assert_eq!(r, Fraction { end: 10_000_000, total: 10_000_000 });
}
