//! Rational rates and the exact phase fractions derived from them.
use vstd::prelude::*;

verus! {

/// Nanoseconds in one second.
pub const NANOS_PER_SECOND: u64 = 1_000_000_000;

/// Largest numerator or denominator a [`Rate`] accepts.
pub const MAX_RATE_TERM: u32 = 1_000_000_000;

/// Largest period, in rate units, that any valid [`Rate`] can have.
pub const MAX_PERIOD_UNITS: u64 = 1_000_000_000_000_000_000;

/// A frequency: `numerator` events every `denominator` seconds.
///
/// Time against a rate is measured in *units* of `1 / numerator` nanoseconds,
/// which makes the period between two events the whole number
/// `NANOS_PER_SECOND * denominator`.
#[derive(Clone, Copy, Debug, PartialEq, Eq, Structural)]
pub struct Rate {
    pub numerator: u32,
    pub denominator: u32,
}

impl Rate {
    /// Both terms lie in `1 ..= MAX_RATE_TERM`.
    pub open spec fn wf(self) -> bool {
        &&& 0 < self.numerator <= MAX_RATE_TERM
        &&& 0 < self.denominator <= MAX_RATE_TERM
    }

    /// Units between two consecutive events.
    pub open spec fn period_units(self) -> int {
        NANOS_PER_SECOND as int * self.denominator as int
    }

    /// Units that `nanos` nanoseconds are worth.
    pub open spec fn units_of(self, nanos: int) -> int {
        nanos * self.numerator as int
    }

    /// Whole nanoseconds that cover `units`, rounded up.
    pub open spec fn nanos_covering(self, units: int) -> int {
        (units + self.numerator as int - 1) / (self.numerator as int)
    }

    /// The period of a valid rate is positive and at most `MAX_PERIOD_UNITS`.
    pub proof fn lemma_period_bounds(self)
        requires
            self.wf(),
        ensures
            0 < self.period_units() <= MAX_PERIOD_UNITS,
    {
        assert(0 < 1_000_000_000 * self.denominator <= 1_000_000_000_000_000_000)
            by (nonlinear_arith)
            requires
                0 < self.denominator <= 1_000_000_000,
        ;
    }

    /// Covering a positive number of units takes at least one nanosecond
    /// and no more nanoseconds than units.
    pub proof fn lemma_covering_bounds(self, units: int)
        requires
            self.wf(),
            units > 0,
        ensures
            0 < self.nanos_covering(units) <= units,
    {
        let k = self.numerator as int;
        assert(0 < (units + k - 1) / k <= units) by (nonlinear_arith)
            requires
                k > 0,
                units > 0,
        ;
    }

    /// `numerator` events per `denominator` seconds; `None` unless both terms
    /// lie in `1 ..= MAX_RATE_TERM`.
    pub fn per_second(numerator: u32, denominator: u32) -> (r: Option<Rate>)
        ensures
            r.is_some() <==> (0 < numerator <= MAX_RATE_TERM && 0 < denominator <= MAX_RATE_TERM),
            r.is_some() ==> r.unwrap().wf() && r.unwrap().numerator == numerator
                && r.unwrap().denominator == denominator,
    {
        if numerator == 0 || denominator == 0 || numerator > MAX_RATE_TERM
            || denominator > MAX_RATE_TERM {
            None
        } else {
            Some(Rate { numerator, denominator })
        }
    }

    /// The period in units, as a machine integer.
    pub fn period(&self) -> (p: u64)
        requires
            self.wf(),
        ensures
            p == self.period_units(),
            0 < p <= MAX_PERIOD_UNITS,
    {
        let d: u64 = self.denominator as u64;
        assert(NANOS_PER_SECOND * d <= MAX_PERIOD_UNITS) by (nonlinear_arith)
            requires
                d <= 1_000_000_000,
        ;
        assert(NANOS_PER_SECOND * d > 0) by (nonlinear_arith)
            requires
                d > 0,
        ;
        NANOS_PER_SECOND * d
    }

    /// Nanoseconds, rounded up, until `units` more units have passed.
    pub fn nanos_to_cover(&self, units: u64) -> (n: u64)
        requires
            self.wf(),
            units <= MAX_PERIOD_UNITS,
        ensures
            n == self.nanos_covering(units as int),
            units > 0 ==> n > 0,
    {
        let k: u64 = self.numerator as u64;
        let n: u64 = (units + (k - 1)) / k;
        assert(units > 0 ==> (units + (k - 1)) / (k as int) > 0) by (nonlinear_arith)
            requires
                k > 0,
        ;
        n
    }
}

/// An exact fraction `num / den` locating a frame between two ticks.
#[derive(Clone, Copy, Debug, PartialEq, Eq, Structural)]
pub struct Phase {
    pub num: u64,
    pub den: u64,
}

impl Phase {
    /// The fraction lies in `[0, 1)`.
    pub open spec fn wf(self) -> bool {
        self.num < self.den
    }

    /// The fraction `num / den`; `None` unless it lies in `[0, 1)`.
    pub fn new(num: u64, den: u64) -> (r: Option<Phase>)
        ensures
            r.is_some() <==> num < den,
            r.is_some() ==> r.unwrap() == (Phase { num, den }),
    {
        if num < den {
            Some(Phase { num, den })
        } else {
            None
        }
    }

    /// The fraction `num / den` brought into `[0, 1)`: kept as it is where it
    /// lies there, lowered to the largest fraction below one with the same
    /// denominator where it is one or more, and zero where the denominator is
    /// zero.
    pub fn clamped(num: u64, den: u64) -> (r: Phase)
        ensures
            r.wf(),
            r == if den == 0 {
                Phase { num: 0, den: 1 }
            } else if num < den {
                Phase { num, den }
            } else {
                Phase { num: (den - 1) as u64, den }
            },
    {
        if den == 0 {
            Phase { num: 0, den: 1 }
        } else if num < den {
            Phase { num, den }
        } else {
            Phase { num: den - 1, den }
        }
    }
}

} // verus!
