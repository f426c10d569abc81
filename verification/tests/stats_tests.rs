use attt::stats::{Ratio, TypingStats};

#[test]
fn zero_statistics_are_all_zero() {
    let z = TypingStats::zero();
    assert_eq!(z.wpm, Ratio { num: 0, den: 1 });
    assert_eq!(z.accuracy, Ratio { num: 0, den: 1 });
    assert_eq!(z.awpm, Ratio { num: 0, den: 1 });
    assert_eq!(Ratio::zero(), Ratio { num: 0, den: 1 });
}

#[test]
fn compute_gives_the_three_formulas() {
    // 50 characters typed for a phrase of 40 in one minute
    let s = TypingStats::compute(40, 50, 60_000_000_000);
    // (50 / 5) / (60 / 60) = 10
    assert_eq!(s.wpm, Ratio { num: 600_000_000_000, den: 60_000_000_000 });
    assert_eq!(s.wpm.num / s.wpm.den, 10);
    // 40 / 50 * 100 = 80
    assert_eq!(s.accuracy, Ratio { num: 4000, den: 50 });
    assert_eq!(s.accuracy.num / s.accuracy.den, 80);
    // 10 * 0.8 = 8
    assert_eq!(s.awpm, Ratio { num: 480_000_000_000, den: 60_000_000_000 });
    assert_eq!(s.awpm.num / s.awpm.den, 8);
}

#[test]
fn awpm_is_wpm_times_accuracy_over_100() {
    for (target, typed, elapsed) in [(2usize, 3usize, 7u128), (10, 10, 1_000), (5, 9, 123_456_789)] {
        let s = TypingStats::compute(target, typed, elapsed);
        assert_eq!(
            s.awpm.num * s.wpm.den * s.accuracy.den * 100,
            s.wpm.num * s.accuracy.num * s.awpm.den
        );
    }
}

#[test]
fn no_elapsed_time_gives_zero_speed() {
    let s = TypingStats::compute(2, 3, 0);
    assert_eq!(s.wpm, Ratio { num: 0, den: 1 });
    assert_eq!(s.accuracy, Ratio { num: 200, den: 3 });
    assert_eq!(s.awpm, Ratio { num: 0, den: 1 });
}

#[test]
fn nothing_typed_gives_zero_accuracy() {
    let s = TypingStats::compute(4, 0, 1_000);
    assert_eq!(s.wpm, Ratio { num: 0, den: 1_000 });
    assert_eq!(s.accuracy, Ratio { num: 0, den: 1 });
    assert_eq!(s.awpm, Ratio { num: 0, den: 1 });
    let both = TypingStats::compute(4, 0, 0);
    assert_eq!(both, TypingStats::zero());
}

#[test]
fn largest_counts_do_not_overflow() {
    let s = TypingStats::compute(usize::MAX, usize::MAX, u128::MAX);
    assert_eq!(s.wpm.num, usize::MAX as u128 * 12_000_000_000);
    assert_eq!(s.accuracy.num, usize::MAX as u128 * 100);
}
