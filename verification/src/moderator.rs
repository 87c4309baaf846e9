//! Exponential backoff between attempts to connect.

use vstd::arithmetic::power::{lemma0_pow, lemma_pow0, lemma_pow_increases, pow};
use vstd::prelude::*;

verus! {

pub const DEFAULT_MAX_COUNT: u32 = 10;

pub const DEFAULT_RATE: u32 = 2;

/// Counts failures up to a ceiling and turns the count into a waiting time.
pub struct Moderator {
    count: u32,
    max_count: u32,
    rate: u32,
}

impl Moderator {
    pub closed spec fn count(&self) -> nat {
        self.count as nat
    }

    pub closed spec fn max_count(&self) -> nat {
        self.max_count as nat
    }

    pub closed spec fn rate(&self) -> nat {
        self.rate as nat
    }

    /// The waiting time in seconds: the rate raised to the number of failures.
    pub open spec fn interval(&self) -> int {
        pow(self.rate() as int, self.count())
    }

    pub fn new() -> (r: Moderator)
        ensures
            r.count() == 0,
            r.max_count() == DEFAULT_MAX_COUNT,
            r.rate() == DEFAULT_RATE,
    {
        Moderator::with_custom_rate(DEFAULT_MAX_COUNT, DEFAULT_RATE)
    }

    pub fn with_custom_rate(max_count: u32, rate: u32) -> (r: Moderator)
        ensures
            r.count() == 0,
            r.max_count() == max_count,
            r.rate() == rate,
    {
        Moderator { count: 0, max_count: max_count, rate: rate }
    }

    pub fn reset(&mut self)
        ensures
            final(self).count() == 0,
            final(self).max_count() == old(self).max_count(),
            final(self).rate() == old(self).rate(),
    {
        self.count = 0;
    }

    /// Counts one more failure, unless the ceiling is reached.
    pub fn add_count(&mut self)
        ensures
            final(self).count() == if old(self).count() < old(self).max_count() {
                old(self).count() + 1
            } else {
                old(self).count()
            },
            final(self).max_count() == old(self).max_count(),
            final(self).rate() == old(self).rate(),
    {
        if self.count < self.max_count {
            self.count += 1;
        }
    }

    pub fn compute_next_interval(&self) -> (r: u32)
        requires
            self.interval() <= u32::MAX,
        ensures
            r == self.interval(),
    {
        if self.rate == 0 {
            proof {
                if self.count == 0 {
                    lemma_pow0(0);
                } else {
                    lemma0_pow(self.count as nat);
                }
            }
            return if self.count == 0 {
                1
            } else {
                0
            };
        }
        let mut acc: u32 = 1;
        let mut i: u32 = 0;
        proof {
            lemma_pow0(self.rate as int);
        }
        while i < self.count
            invariant
                i <= self.count,
                self.rate > 0,
                acc == pow(self.rate as int, i as nat),
                pow(self.rate as int, self.count as nat) <= u32::MAX,
            decreases self.count - i,
        {
            proof {
                lemma_pow_increases(self.rate as nat, (i + 1) as nat, self.count as nat);
                assert(pow(self.rate as int, (i + 1) as nat) == self.rate * pow(
                    self.rate as int,
                    i as nat,
                )) by {
                    reveal(pow);
                }
            }
            acc = acc * self.rate;
            i = i + 1;
        }
        acc
    }

    /// The moderator is paced as `new` makes it and has counted no more
    /// failures than its ceiling allows.
    pub open spec fn is_default_paced(&self) -> bool {
        self.rate() == DEFAULT_RATE && self.max_count() == DEFAULT_MAX_COUNT && self.count()
            <= self.max_count()
    }

    /// A moderator paced as `new` makes it never asks for more than 1024 seconds.
    pub proof fn lemma_default_interval_is_bounded(&self)
        requires
            self.is_default_paced(),
        ensures
            1 <= self.interval() <= 1024,
    {
        lemma_pow_increases(2, self.count(), 10);
        lemma_pow_increases(2, 0, self.count());
        lemma_pow0(2);
        reveal_with_fuel(pow, 11);
        assert(pow(2, 10) == 1024);
    }
}

} // verus!
