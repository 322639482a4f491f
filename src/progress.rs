use vstd::prelude::*;

verus! {

/// The percentage that stands for a finished computation.
pub const FULL_PERCENT: u8 = 100;

/// Where a requested percentage lands once clamped into `0..=100`.
pub open spec fn clamped_percent(percent: i64) -> int {
    if percent <= 0 {
        0
    } else if percent >= 100 {
        100
    } else {
        percent as int
    }
}

/// A completion fraction in `[0, 1]`, held as a whole percentage.
#[derive(Clone, Copy, Debug, PartialEq, Eq, Structural)]
pub struct Progress {
    percent: u8,
}

impl Progress {
    #[verifier::type_invariant]
    spec fn within_bounds(self) -> bool {
        self.percent <= FULL_PERCENT
    }

    /// The fraction times one hundred.
    pub closed spec fn percent_spec(self) -> int {
        self.percent as int
    }

    /// Maps a percentage to a fraction, clamping below zero and above one hundred.
    pub fn from_percent(percent: i64) -> (r: Progress)
        ensures
            r.percent_spec() == clamped_percent(percent),
    {
        let p: u8 = if percent <= 0 {
            0
        } else if percent >= 100 {
            FULL_PERCENT
        } else {
            percent as u8
        };
        Progress { percent: p }
    }

    /// The fraction times one hundred, in `0..=100`.
    pub fn percent(&self) -> (r: u8)
        ensures
            r as int == self.percent_spec(),
            r <= FULL_PERCENT,
    {
        proof {
            use_type_invariant(self);
        }
        self.percent
    }
}

impl Default for Progress {
    /// No progress at all.
    fn default() -> (r: Progress)
        ensures
            r.percent_spec() == 0,
    {
        Progress { percent: 0 }
    }
}

/// Two progress values with the same percentage are equal.
pub proof fn lemma_percent_determines_progress(a: Progress, b: Progress)
    requires
        a.percent_spec() == b.percent_spec(),
    ensures
        a == b,
{
}

/// Clamping keeps the order of its inputs, and is the identity inside `0..=100`.
pub proof fn lemma_from_percent_monotonic(a: i64, b: i64)
    requires
        a <= b,
    ensures
        clamped_percent(a) <= clamped_percent(b),
        0 <= a <= 100 ==> clamped_percent(a) == a,
{
}

} // verus!
