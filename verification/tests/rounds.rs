use guessing_game::human::{GuessResponse, HumanGame};
use guessing_game::machine::MachineGame;

#[test]
fn secret_lies_within_the_range() {
    for bound in [11u32, 12, 50, 1000] {
        for _ in 0..20 {
            let game = HumanGame::new(10, bound);
            let secret = game.secret_value();
            assert!(1 <= secret && secret <= bound);
        }
    }
}

#[test]
fn guesses_are_answered_exactly() {
    let mut game = HumanGame::with_secret(5, 10, 20);
    assert_eq!(game.guess(7), GuessResponse::TooHigh);
    assert_eq!(game.guess(1), GuessResponse::TooLow);
    assert_eq!(game.guess(5), GuessResponse::Correct);
    assert_eq!(game.attempts_made(), 3);
}

#[test]
fn invalid_lines_consume_no_attempt() {
    let mut game = HumanGame::with_secret(5, 3, 20);
    assert_eq!(game.process_guess_line("abc"), GuessResponse::Invalid);
    assert_eq!(game.attempts_made(), 0);
    assert_eq!(game.process_guess_line(""), GuessResponse::Invalid);
    assert_eq!(game.process_guess_line("5x"), GuessResponse::Invalid);
    assert_eq!(game.process_guess_line("-2"), GuessResponse::Invalid);
    assert_eq!(game.attempts_made(), 0);
    assert!(game.has_attempts_left());
}

#[test]
fn valid_lines_consume_one_attempt_each() {
    let mut game = HumanGame::with_secret(5, 3, 20);
    assert_eq!(game.process_guess_line(" 9\n"), GuessResponse::TooHigh);
    assert_eq!(game.attempts_made(), 1);
    assert_eq!(game.process_guess_line("oops"), GuessResponse::Invalid);
    assert_eq!(game.attempts_made(), 1);
    assert_eq!(game.process_guess_line("3"), GuessResponse::TooLow);
    assert_eq!(game.attempts_made(), 2);
    assert_eq!(game.process_guess_line("5"), GuessResponse::Correct);
    assert_eq!(game.attempts_made(), 3);
    assert!(!game.has_attempts_left());
    assert_eq!(game.attempt_limit(), 3);
    assert_eq!(game.secret_value(), 5);
}

#[test]
fn bisection_proposes_the_midpoint() {
    let game = MachineGame::new(10, 16);
    assert_eq!(game.candidates_left(), 16);
    assert_eq!(game.current_guess(), 9);
}

#[test]
fn bisection_shrinks_toward_one_candidate() {
    // The human thinks of 3 and answers truthfully; the candidate count must
    // fall strictly until the machine proposes 3.
    let secret = 3u32;
    let mut game = MachineGame::new(10, 16);
    let mut last_size = game.candidates_left();
    loop {
        let proposal = game.current_guess();
        if proposal == secret {
            break;
        }
        game.record_feedback(secret > proposal);
        let size = game.candidates_left();
        assert!(size < last_size);
        assert!(size >= 1);
        last_size = size;
    }
    assert_eq!(game.current_guess(), secret);
}

#[test]
fn every_secret_is_found_within_the_range() {
    let bound = 30u32;
    for secret in 1..=bound {
        let mut game = MachineGame::new(bound, bound);
        let mut rounds = 0u32;
        while game.current_guess() != secret {
            game.record_feedback(secret > game.current_guess());
            rounds += 1;
            assert!(rounds <= bound);
        }
        assert_eq!(game.current_guess(), secret);
    }
}

#[test]
fn a_single_candidate_is_never_dropped() {
    let mut game = MachineGame::new(10, 16);
    // Deny with "lower" until one candidate is left.
    while game.candidates_left() > 1 {
        game.record_feedback(false);
    }
    assert_eq!(game.candidates_left(), 1);
    let only = game.current_guess();
    game.record_feedback(false);
    assert_eq!(game.candidates_left(), 1);
    game.record_feedback(true);
    assert_eq!(game.candidates_left(), 1);
    assert_eq!(game.current_guess(), only);
}

#[test]
fn denials_consume_attempts() {
    let mut game = MachineGame::new(3, 16);
    assert_eq!(game.attempts_made(), 0);
    assert!(game.has_attempts_left());
    game.record_feedback(true);
    game.record_feedback(false);
    game.record_feedback(true);
    assert_eq!(game.attempts_made(), 3);
    assert!(!game.has_attempts_left());
}

#[test]
fn upper_half_keeps_the_proposal() {
    let mut game = MachineGame::new(10, 16);
    let proposal = game.current_guess();
    assert_eq!(proposal, 9);
    game.record_feedback(true);
    // The kept half is [9, 16]: its midpoint proposal is 9 + 8 / 2 = 13.
    assert_eq!(game.candidates_left(), 8);
    assert_eq!(game.current_guess(), 13);
}
