//! The round in which the human guesses a machine-chosen secret: the secret
//! is drawn uniformly from `[1, bound]`, each valid guess consumes one of a
//! limited number of attempts, and each guess is answered with too high, too
//! low or correct. A line that is no number consumes nothing.

use rand::Rng;
use vstd::prelude::*;

verus! {

use crate::input::{parse_u32, parses_as_u32, u32_value};

/// Answer the game gives to one typed guess.
#[derive(Clone, Copy, Debug, PartialEq, Eq, Structural)]
pub enum GuessResponse {
    /// The line was no number; no attempt was consumed.
    Invalid,
    /// The guess equals the secret; the round is won.
    Correct,
    /// The guess lies above the secret.
    TooHigh,
    /// The guess lies below the secret.
    TooLow,
}

/// Relies on rand: `thread_rng` yields the thread-local generator, and
/// `Rng::gen_range(lo..=hi)` samples the inclusive range, panicking only when
/// the range is empty. Every sample lies within the range; nothing more can
/// be said of a random draw.
#[verifier::external_body]
fn random_in_range(lo: u32, hi: u32) -> (r: u32)
    requires
        lo <= hi,
    ensures
        lo <= r <= hi,
{
    rand::thread_rng().gen_range(lo..=hi)
}

/// State of one human-guesses round.
pub struct HumanGame {
    secret: u32,
    bound: u32,
    limit: u32,
    attempts: u32,
}

impl HumanGame {
    /// The secret the human is after.
    pub closed spec fn secret(self) -> u32 {
        self.secret
    }

    /// Upper end of the range the secret was drawn from.
    pub closed spec fn bound(self) -> u32 {
        self.bound
    }

    /// Attempts the difficulty grants.
    pub closed spec fn limit(self) -> u32 {
        self.limit
    }

    /// Valid guesses made so far.
    pub closed spec fn attempts(self) -> u32 {
        self.attempts
    }

    /// The secret lies in `[1, bound]` and no more attempts were consumed
    /// than the limit grants.
    pub open spec fn wf(self) -> bool {
        &&& 1 <= self.secret() <= self.bound()
        &&& self.attempts() <= self.limit()
    }

    /// Starts a round with a known secret.
    pub fn with_secret(secret: u32, limit: u32, bound: u32) -> (g: HumanGame)
        requires
            1 <= secret <= bound,
        ensures
            g.wf(),
            g.secret() == secret,
            g.bound() == bound,
            g.limit() == limit,
            g.attempts() == 0,
    {
        HumanGame { secret, bound, limit, attempts: 0 }
    }

    /// Starts a round whose secret is drawn uniformly from `[1, bound]`: for
    /// every valid upper bound the secret lies within `[1, bound]`.
    pub fn new(limit: u32, bound: u32) -> (g: HumanGame)
        requires
            bound > 10,
        ensures
            g.wf(),
            1 <= g.secret() <= bound,
            g.bound() == bound,
            g.limit() == limit,
            g.attempts() == 0,
    {
        let secret = random_in_range(1, bound);
        HumanGame::with_secret(secret, limit, bound)
    }

    /// Answers one valid guess and consumes one attempt.
    pub fn guess(&mut self, g: u32) -> (r: GuessResponse)
        requires
            old(self).wf(),
            old(self).attempts() < old(self).limit(),
        ensures
            final(self).wf(),
            final(self).secret() == old(self).secret(),
            final(self).bound() == old(self).bound(),
            final(self).limit() == old(self).limit(),
            final(self).attempts() == old(self).attempts() + 1,
            r == GuessResponse::Correct <==> g == old(self).secret(),
            r == GuessResponse::TooHigh <==> g > old(self).secret(),
            r == GuessResponse::TooLow <==> g < old(self).secret(),
    {
        self.attempts = self.attempts + 1;
        if g == self.secret {
            GuessResponse::Correct
        } else if g > self.secret {
            GuessResponse::TooHigh
        } else {
            GuessResponse::TooLow
        }
    }

    /// Answers one typed line. A line that reads as a number is a guess and
    /// consumes one attempt; any other line is rejected and leaves the round,
    /// the attempt count included, exactly as it was.
    pub fn process_guess_line(&mut self, line: &str) -> (r: GuessResponse)
        requires
            old(self).wf(),
            old(self).attempts() < old(self).limit(),
        ensures
            final(self).wf(),
            final(self).secret() == old(self).secret(),
            final(self).bound() == old(self).bound(),
            final(self).limit() == old(self).limit(),
            !parses_as_u32(line@) ==> r == GuessResponse::Invalid && *final(self) == *old(self),
            parses_as_u32(line@) ==> {
                &&& final(self).attempts() == old(self).attempts() + 1
                &&& (r == GuessResponse::Correct <==> u32_value(line@) == old(self).secret())
                &&& (r == GuessResponse::TooHigh <==> u32_value(line@) > old(self).secret())
                &&& (r == GuessResponse::TooLow <==> u32_value(line@) < old(self).secret())
            },
    {
        match parse_u32(line) {
            None => GuessResponse::Invalid,
            Some(g) => self.guess(g),
        }
    }

    /// The secret, for reporting at the end of a lost round.
    pub fn secret_value(&self) -> (r: u32)
        ensures
            r == self.secret(),
    {
        self.secret
    }

    /// Valid guesses made so far.
    pub fn attempts_made(&self) -> (r: u32)
        ensures
            r == self.attempts(),
    {
        self.attempts
    }

    /// Attempts the difficulty grants.
    pub fn attempt_limit(&self) -> (r: u32)
        ensures
            r == self.limit(),
    {
        self.limit
    }

    /// Whether the round still has an attempt left.
    pub fn has_attempts_left(&self) -> (r: bool)
        ensures
            r == (self.attempts() < self.limit()),
    {
        self.attempts < self.limit
    }
}

} // verus!
