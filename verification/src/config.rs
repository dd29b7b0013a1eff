//! Round configuration: the two game modes, the difficulty levels with their
//! attempt limits, and the parsers for the configuration prompts.

use vstd::prelude::*;

verus! {

use crate::input::{parse_u32, parses_as_u32, trim_bounds, trimmed, u32_value};

/// The trimmed line is exactly the letter Y, in either case.
pub open spec fn is_yes_letter(t: Seq<char>) -> bool {
    t.len() == 1 && (t[0] == 'Y' || t[0] == 'y')
}

/// Who does the guessing in a round.
#[derive(Clone, Copy, Debug, PartialEq, Eq, Structural)]
pub enum GameMode {
    /// The human guesses a machine-chosen secret.
    HumanGuesses,
    /// The machine guesses a human-chosen number by bisection.
    MachineGuesses,
}

/// Difficulty level chosen at the start of a round.
#[derive(Clone, Copy, Debug, PartialEq, Eq, Structural)]
pub enum Difficulty {
    Easy,
    Medium,
    Hard,
}

/// Why a typed line was rejected by a numeric prompt.
#[derive(Clone, Copy, Debug, PartialEq, Eq, Structural)]
pub enum InputError {
    /// The line does not read as an unsigned number at all.
    NotNumeric,
    /// The line is a number, but not one the prompt accepts.
    OutOfRange,
}

impl Difficulty {
    /// Attempts granted per difficulty: easy 10, medium 5, hard 3.
    pub open spec fn limit_spec(self) -> u32 {
        match self {
            Difficulty::Easy => 10,
            Difficulty::Medium => 5,
            Difficulty::Hard => 3,
        }
    }

    /// Number of attempts a round at this difficulty allows.
    pub fn attempt_limit(&self) -> (r: u32)
        ensures
            r == self.limit_spec(),
    {
        match self {
            Difficulty::Easy => 10,
            Difficulty::Medium => 5,
            Difficulty::Hard => 3,
        }
    }
}

/// The difficulty a trimmed line denotes: the single letter E, M or D, in
/// either case. Anything else denotes none.
pub open spec fn difficulty_of(t: Seq<char>) -> Option<Difficulty> {
    if t.len() == 1 && (t[0] == 'E' || t[0] == 'e') {
        Some(Difficulty::Easy)
    } else if t.len() == 1 && (t[0] == 'M' || t[0] == 'm') {
        Some(Difficulty::Medium)
    } else if t.len() == 1 && (t[0] == 'D' || t[0] == 'd') {
        Some(Difficulty::Hard)
    } else {
        None
    }
}

/// Reads a typed line as a difficulty choice.
pub fn parse_difficulty(s: &str) -> (r: Option<Difficulty>)
    ensures
        r == difficulty_of(trimmed(s@)),
{
    let (lo, hi) = trim_bounds(s);
    if hi - lo != 1 {
        return None;
    }
    proof {
        assert(trimmed(s@)[0] == s@[lo as int]);
    }
    let c = s.get_char(lo);
    if c == 'E' || c == 'e' {
        Some(Difficulty::Easy)
    } else if c == 'M' || c == 'm' {
        Some(Difficulty::Medium)
    } else if c == 'D' || c == 'd' {
        Some(Difficulty::Hard)
    } else {
        None
    }
}

/// Reads a typed line as the mode choice: the number 1 picks the round where
/// the human guesses, 2 the round where the machine guesses; any other number
/// is out of range, and a non-number is not numeric.
pub fn parse_mode(s: &str) -> (r: Result<GameMode, InputError>)
    ensures
        match r {
            Ok(GameMode::HumanGuesses) => parses_as_u32(s@) && u32_value(s@) == 1,
            Ok(GameMode::MachineGuesses) => parses_as_u32(s@) && u32_value(s@) == 2,
            Err(InputError::OutOfRange) => parses_as_u32(s@) && u32_value(s@) != 1 && u32_value(
                s@,
            ) != 2,
            Err(InputError::NotNumeric) => !parses_as_u32(s@),
        },
{
    match parse_u32(s) {
        None => Err(InputError::NotNumeric),
        Some(n) => if n == 1 {
            Ok(GameMode::HumanGuesses)
        } else if n == 2 {
            Ok(GameMode::MachineGuesses)
        } else {
            Err(InputError::OutOfRange)
        },
    }
}

/// Reads a typed line as the upper bound of the guessing range, which must be
/// a number greater than 10.
pub fn parse_upper_bound(s: &str) -> (r: Result<u32, InputError>)
    ensures
        match r {
            Ok(v) => parses_as_u32(s@) && v as int == u32_value(s@) && v > 10,
            Err(InputError::OutOfRange) => parses_as_u32(s@) && u32_value(s@) <= 10,
            Err(InputError::NotNumeric) => !parses_as_u32(s@),
        },
{
    match parse_u32(s) {
        None => Err(InputError::NotNumeric),
        Some(n) => if n > 10 {
            Ok(n)
        } else {
            Err(InputError::OutOfRange)
        },
    }
}

/// The yes-or-no answer a trimmed line denotes: the single letter Y or N, in
/// either case. Anything else denotes none.
pub open spec fn yes_no_of(t: Seq<char>) -> Option<bool> {
    if t.len() == 1 && (t[0] == 'Y' || t[0] == 'y') {
        Some(true)
    } else if t.len() == 1 && (t[0] == 'N' || t[0] == 'n') {
        Some(false)
    } else {
        None
    }
}

/// Reads a typed line as a yes-or-no answer.
pub fn parse_yes_no(s: &str) -> (r: Option<bool>)
    ensures
        r == yes_no_of(trimmed(s@)),
{
    let (lo, hi) = trim_bounds(s);
    if hi - lo != 1 {
        return None;
    }
    proof {
        assert(trimmed(s@)[0] == s@[lo as int]);
    }
    let c = s.get_char(lo);
    if c == 'Y' || c == 'y' {
        Some(true)
    } else if c == 'N' || c == 'n' {
        Some(false)
    } else {
        None
    }
}

/// Whether a typed line asks for another round: only the single letter Y, in
/// either case, does.
pub fn play_again(s: &str) -> (r: bool)
    ensures
        r == is_yes_letter(trimmed(s@)),
{
    let (lo, hi) = trim_bounds(s);
    if hi - lo != 1 {
        return false;
    }
    proof {
        assert(trimmed(s@)[0] == s@[lo as int]);
    }
    let c = s.get_char(lo);
    c == 'Y' || c == 'y'
}

} // verus!
