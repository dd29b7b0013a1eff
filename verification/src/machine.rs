//! The round in which the machine guesses a human-chosen number: it keeps a
//! contiguous candidate range, proposes the midpoint each round, and on a
//! denial keeps the upper or lower half according to whether the number is
//! higher than the proposal. A range of one number is never emptied: a denial
//! there leaves the single candidate standing.

use vstd::prelude::*;

verus! {

/// Midpoint offset the bisection uses: half the size of the range `[lo, hi]`.
pub open spec fn half_size(lo: int, hi: int) -> int {
    (hi - lo + 1) / 2
}

/// The number the machine proposes for the range `[lo, hi]`.
pub open spec fn guess_of(lo: int, hi: int) -> int {
    lo + half_size(lo, hi)
}

/// How many candidates the range `[lo, hi]` holds.
pub open spec fn size_of(lo: int, hi: int) -> int {
    hi - lo + 1
}

/// Lower end of the range after a denial: the proposal itself when the number
/// is higher (the upper half keeps the proposal), unchanged otherwise.
pub open spec fn narrowed_lo(lo: int, hi: int, higher: bool) -> int {
    if higher {
        lo + half_size(lo, hi)
    } else {
        lo
    }
}

/// Upper end of the range after a denial: unchanged when the number is
/// higher; one below the proposal otherwise, except that a range of a single
/// number is kept rather than emptied.
pub open spec fn narrowed_hi(lo: int, hi: int, higher: bool) -> int {
    if higher {
        hi
    } else if half_size(lo, hi) == 0 {
        hi
    } else {
        lo + half_size(lo, hi) - 1
    }
}

/// Law: each bisection round shrinks a candidate range of more than one
/// number strictly, never empties a range, and leaves a single-number range
/// alone — with rounds of consistent feedback the size decreases
/// monotonically toward one.
pub proof fn lemma_narrow_decreases_toward_one(lo: int, hi: int, higher: bool)
    requires
        1 <= lo <= hi,
    ensures
        1 <= narrowed_lo(lo, hi, higher) <= narrowed_hi(lo, hi, higher) <= hi,
        lo <= narrowed_lo(lo, hi, higher),
        size_of(narrowed_lo(lo, hi, higher), narrowed_hi(lo, hi, higher)) <= size_of(lo, hi),
        size_of(lo, hi) > 1 ==> size_of(narrowed_lo(lo, hi, higher), narrowed_hi(lo, hi, higher))
            < size_of(lo, hi),
        size_of(narrowed_lo(lo, hi, higher), narrowed_hi(lo, hi, higher)) >= 1,
        size_of(lo, hi) == 1 ==> size_of(narrowed_lo(lo, hi, higher), narrowed_hi(lo, hi, higher))
            == 1,
        size_of(lo, hi) > 1 ==> size_of(narrowed_lo(lo, hi, higher), narrowed_hi(lo, hi, higher))
            <= (size_of(lo, hi) + 1) / 2,
{
}

/// Law: truthful feedback never drops the human's number from the candidate
/// range — if the number lies in `[lo, hi]`, differs from the proposal, and
/// the higher-or-lower answer is truthful, it lies in the narrowed range too.
pub proof fn lemma_truthful_feedback_keeps_secret(lo: int, hi: int, secret: int, higher: bool)
    requires
        1 <= lo <= secret <= hi,
        secret != guess_of(lo, hi),
        higher == (secret > guess_of(lo, hi)),
    ensures
        narrowed_lo(lo, hi, higher) <= secret <= narrowed_hi(lo, hi, higher),
{
}

/// State of one machine-guesses round.
pub struct MachineGame {
    lo: u32,
    hi: u32,
    limit: u32,
    attempts: u32,
}

impl MachineGame {
    /// Lowest still-possible number.
    pub closed spec fn low(self) -> u32 {
        self.lo
    }

    /// Highest still-possible number.
    pub closed spec fn high(self) -> u32 {
        self.hi
    }

    /// Attempts the difficulty grants.
    pub closed spec fn limit(self) -> u32 {
        self.limit
    }

    /// Denied proposals so far.
    pub closed spec fn attempts(self) -> u32 {
        self.attempts
    }

    /// How many candidates are still possible.
    pub open spec fn size(self) -> int {
        size_of(self.low() as int, self.high() as int)
    }

    /// The candidate range is a nonempty part of `[1, ...]` and no more
    /// attempts were consumed than the limit grants.
    pub open spec fn wf(self) -> bool {
        &&& 1 <= self.low() <= self.high()
        &&& self.attempts() <= self.limit()
    }

    /// Starts a round over the candidates `1` to `bound`.
    pub fn new(limit: u32, bound: u32) -> (g: MachineGame)
        requires
            bound > 10,
        ensures
            g.wf(),
            g.low() == 1,
            g.high() == bound,
            g.limit() == limit,
            g.attempts() == 0,
    {
        MachineGame { lo: 1, hi: bound, limit, attempts: 0 }
    }

    /// The number the machine proposes this round: the midpoint of the
    /// candidate range, itself a candidate.
    pub fn current_guess(&self) -> (r: u32)
        requires
            self.wf(),
        ensures
            r as int == guess_of(self.low() as int, self.high() as int),
            self.low() <= r <= self.high(),
    {
        let half = (self.hi - self.lo + 1) / 2;
        self.lo + half
    }

    /// Narrows the range after a denied proposal and consumes one attempt:
    /// the upper half is kept when the number is higher than the proposal,
    /// the lower half otherwise, and a single candidate is never dropped.
    pub fn record_feedback(&mut self, higher: bool)
        requires
            old(self).wf(),
            old(self).attempts() < old(self).limit(),
        ensures
            final(self).wf(),
            final(self).limit() == old(self).limit(),
            final(self).attempts() == old(self).attempts() + 1,
            final(self).low() as int == narrowed_lo(
                old(self).low() as int,
                old(self).high() as int,
                higher,
            ),
            final(self).high() as int == narrowed_hi(
                old(self).low() as int,
                old(self).high() as int,
                higher,
            ),
            old(self).size() > 1 ==> final(self).size() < old(self).size(),
            old(self).size() == 1 ==> final(self).size() == 1,
            final(self).size() >= 1,
    {
        proof {
            lemma_narrow_decreases_toward_one(self.lo as int, self.hi as int, higher);
        }
        let half = (self.hi - self.lo + 1) / 2;
        if higher {
            self.lo = self.lo + half;
        } else if half > 0 {
            self.hi = self.lo + half - 1;
        }
        self.attempts = self.attempts + 1;
    }

    /// How many candidates are still possible.
    pub fn candidates_left(&self) -> (r: u32)
        requires
            self.wf(),
        ensures
            r as int == self.size(),
    {
        self.hi - self.lo + 1
    }

    /// Denied proposals so far.
    pub fn attempts_made(&self) -> (r: u32)
        ensures
            r == self.attempts(),
    {
        self.attempts
    }

    /// Whether the round still has an attempt left.
    pub fn has_attempts_left(&self) -> (r: bool)
        ensures
            r == (self.attempts() < self.limit()),
    {
        self.attempts < self.limit
    }
}

} // verus!
