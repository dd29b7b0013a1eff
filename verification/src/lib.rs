//! Core logic of a terminal number-guessing game.
//!
//! Two modes are supported: a human guesses a machine-chosen secret, or the
//! machine guesses a human-chosen number by bisection over a candidate range.
//! This crate holds the verified logic: input parsing and validation, the
//! difficulty-to-attempt-limit mapping, and the state of both game modes.
//! Reading and printing stay with the caller.

pub mod config;
pub mod human;
pub mod input;
pub mod machine;

