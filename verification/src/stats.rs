//! The statistics of an attempt, as exact fractions.

use vstd::prelude::*;

verus! {

/// What one typed character per nanosecond is in words per minute: a word
/// counts five characters, a minute has sixty seconds of a thousand million
/// nanoseconds each.
pub const WPM_PER_CHAR_PER_NANO: u128 = 12_000_000_000;

/// A rational number `num / den`.
pub struct Rational {
    pub num: int,
    pub den: int,
}

impl Rational {
    pub open spec fn zero() -> Rational {
        Rational { num: 0, den: 1 }
    }

    /// The two fractions stand for the same number.
    pub open spec fn same(self, other: Rational) -> bool {
        self.num * other.den == other.num * self.den
    }

    /// The number is less than `other`; both denominators positive.
    pub open spec fn less(self, other: Rational) -> bool
        recommends
            self.den > 0,
            other.den > 0,
    {
        self.num * other.den < other.num * self.den
    }

    /// The number is at most `n`; the denominator positive.
    pub open spec fn at_most(self, n: int) -> bool
        recommends
            self.den > 0,
    {
        self.num <= n * self.den
    }
}

/// Words per minute: `(typed / 5) / (elapsed seconds / 60)`, with `elapsed`
/// in nanoseconds; 0 where no time has passed.
pub open spec fn words_per_minute(typed: nat, elapsed: nat) -> Rational {
    if elapsed == 0 {
        Rational::zero()
    } else {
        Rational { num: typed * WPM_PER_CHAR_PER_NANO, den: elapsed as int }
    }
}

/// Accuracy in percent: `(target / typed) * 100`; 0 where nothing was typed.
pub open spec fn accuracy_percent(target: nat, typed: nat) -> Rational {
    if typed == 0 {
        Rational::zero()
    } else {
        Rational { num: (target * 100) as int, den: typed as int }
    }
}

/// Words per minute weighted by accuracy: `wpm * (accuracy / 100)`; 0 where
/// either of the two is not defined.
pub open spec fn adjusted_words_per_minute(target: nat, typed: nat, elapsed: nat) -> Rational {
    if typed == 0 || elapsed == 0 {
        Rational::zero()
    } else {
        Rational { num: target * WPM_PER_CHAR_PER_NANO, den: elapsed as int }
    }
}

/// A non-negative fraction `num / den` with a positive denominator.
#[derive(Debug, Clone, Copy, PartialEq, Eq, Structural)]
pub struct Ratio {
    pub num: u128,
    pub den: u128,
}

impl View for Ratio {
    type V = Rational;

    open spec fn view(&self) -> Rational {
        Rational { num: self.num as int, den: self.den as int }
    }
}

impl Ratio {
    pub fn zero() -> (ratio: Self)
        ensures
            ratio@ == Rational::zero(),
    {
        Ratio { num: 0, den: 1 }
    }
}

/// The statistics of one attempt.
#[derive(Debug, Clone, Copy, PartialEq, Eq, Structural)]
pub struct TypingStats {
    pub wpm: Ratio,
    pub accuracy: Ratio,
    pub awpm: Ratio,
}

impl TypingStats {
    /// The statistics shown before any attempt was made: all three 0.
    pub open spec fn blank() -> TypingStats {
        TypingStats {
            wpm: Ratio { num: 0, den: 1 },
            accuracy: Ratio { num: 0, den: 1 },
            awpm: Ratio { num: 0, den: 1 },
        }
    }

    /// The statistics of an attempt at a phrase of `target` characters in
    /// which `typed` characters were typed in `elapsed` nanoseconds.
    pub open spec fn of(target: nat, typed: nat, elapsed: nat, stats: TypingStats) -> bool {
        &&& stats.wpm@ == words_per_minute(typed, elapsed)
        &&& stats.accuracy@ == accuracy_percent(target, typed)
        &&& stats.awpm@ == adjusted_words_per_minute(target, typed, elapsed)
    }

    pub fn zero() -> (stats: Self)
        ensures
            stats == Self::blank(),
    {
        TypingStats { wpm: Ratio::zero(), accuracy: Ratio::zero(), awpm: Ratio::zero() }
    }

    /// Computes the statistics of an attempt at a phrase of `target`
    /// characters in which `typed` characters were typed in `elapsed`
    /// nanoseconds.
    pub fn compute(target: usize, typed: usize, elapsed: u128) -> (stats: Self)
        ensures
            Self::of(target as nat, typed as nat, elapsed as nat, stats),
    {
        let wpm = if elapsed == 0 {
            Ratio::zero()
        } else {
            Ratio { num: typed as u128 * WPM_PER_CHAR_PER_NANO, den: elapsed }
        };
        let accuracy = if typed == 0 {
            Ratio::zero()
        } else {
            Ratio { num: target as u128 * 100, den: typed as u128 }
        };
        let awpm = if typed == 0 || elapsed == 0 {
            Ratio::zero()
        } else {
            Ratio { num: target as u128 * WPM_PER_CHAR_PER_NANO, den: elapsed }
        };
        TypingStats { wpm, accuracy, awpm }
    }
}

/// The three statistics are the formulas they are named after:
/// `wpm = (typed / 5) / (seconds / 60)`, `accuracy = (target / typed) * 100`
/// and `awpm = wpm * (accuracy / 100)`, each read as an equation between
/// fractions, with `seconds = elapsed / 1_000_000_000`.
pub proof fn lemma_formulas(target: nat, typed: nat, elapsed: nat)
    requires
        typed > 0,
        elapsed > 0,
    ensures
        words_per_minute(typed, elapsed).same(
            Rational { num: (typed * 60 * 1_000_000_000) as int, den: (5 * elapsed) as int },
        ),
        accuracy_percent(target, typed).same(Rational { num: (target * 100) as int, den: typed as int }),
        adjusted_words_per_minute(target, typed, elapsed).same(
            Rational {
                num: words_per_minute(typed, elapsed).num * accuracy_percent(target, typed).num,
                den: words_per_minute(typed, elapsed).den * accuracy_percent(target, typed).den
                    * 100,
            },
        ),
{
    let w = words_per_minute(typed, elapsed);
    let a = accuracy_percent(target, typed);
    let adjusted = adjusted_words_per_minute(target, typed, elapsed);
    assert((typed * 12_000_000_000) * (5 * elapsed) == (typed * 60 * 1_000_000_000) * elapsed)
        by (nonlinear_arith);
    assert((target * 12_000_000_000) * (elapsed * typed * 100) == ((typed * 12_000_000_000) * (
    target * 100)) * elapsed) by (nonlinear_arith);
}

/// Where nothing was typed or no time has passed, the statistics that would
/// divide by zero are 0.
pub proof fn lemma_degenerate(target: nat, typed: nat, elapsed: nat)
    ensures
        elapsed == 0 ==> words_per_minute(typed, elapsed) == Rational::zero(),
        typed == 0 ==> accuracy_percent(target, typed) == Rational::zero(),
        typed == 0 || elapsed == 0 ==> adjusted_words_per_minute(target, typed, elapsed)
            == Rational::zero(),
{
}

/// With at least as many characters typed as the phrase has, the accuracy
/// is at most 100 percent, and exactly 100 where the two numbers are equal.
pub proof fn lemma_accuracy_at_most_100(target: nat, typed: nat)
    requires
        typed >= target,
    ensures
        accuracy_percent(target, typed).at_most(100),
        typed == target && typed > 0 ==> accuracy_percent(target, typed).same(
            Rational { num: 100, den: 1 },
        ),
{
}

/// Every further typed character lowers the accuracy.
pub proof fn lemma_accuracy_decreases(target: nat, typed: nat)
    requires
        target > 0,
        typed > 0,
    ensures
        accuracy_percent(target, typed + 1).less(accuracy_percent(target, typed)),
{
    assert((target * 100) * typed < (target * 100) * (typed + 1)) by (nonlinear_arith)
        requires
            target > 0,
            typed > 0,
    ;
}

} // verus!
