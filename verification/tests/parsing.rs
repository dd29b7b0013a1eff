use guessing_game::config::{
    parse_difficulty, parse_mode, parse_upper_bound, parse_yes_no, play_again, Difficulty,
    GameMode, InputError,
};
use guessing_game::input::{parse_u32, trim_bounds};

#[test]
fn trim_bounds_brackets_the_payload() {
    assert_eq!(trim_bounds("  42\n"), (2, 4));
    assert_eq!(trim_bounds("42"), (0, 2));
    assert_eq!(trim_bounds("   \t\r\n"), (6, 6));
    assert_eq!(trim_bounds(""), (0, 0));
}

#[test]
fn parse_u32_accepts_plain_numbers() {
    assert_eq!(parse_u32("12"), Some(12));
    assert_eq!(parse_u32(" 7\n"), Some(7));
    assert_eq!(parse_u32("0"), Some(0));
    assert_eq!(parse_u32("007"), Some(7));
    assert_eq!(parse_u32("+7"), Some(7));
    assert_eq!(parse_u32("4294967295"), Some(u32::MAX));
}

#[test]
fn parse_u32_rejects_non_numbers() {
    assert_eq!(parse_u32(""), None);
    assert_eq!(parse_u32("   "), None);
    assert_eq!(parse_u32("abc"), None);
    assert_eq!(parse_u32("1a"), None);
    assert_eq!(parse_u32("-3"), None);
    assert_eq!(parse_u32("+"), None);
    assert_eq!(parse_u32("1 2"), None);
}

#[test]
fn parse_u32_rejects_overflow() {
    assert_eq!(parse_u32("4294967296"), None);
    assert_eq!(parse_u32("99999999999999999999"), None);
}

#[test]
fn parse_mode_reads_the_two_choices() {
    assert_eq!(parse_mode("1"), Ok(GameMode::HumanGuesses));
    assert_eq!(parse_mode(" 2 \n"), Ok(GameMode::MachineGuesses));
}

#[test]
fn parse_mode_rejects_other_numbers() {
    assert_eq!(parse_mode("3"), Err(InputError::OutOfRange));
    assert_eq!(parse_mode("0"), Err(InputError::OutOfRange));
}

#[test]
fn parse_mode_rejects_letters() {
    assert_eq!(parse_mode("one"), Err(InputError::NotNumeric));
    assert_eq!(parse_mode(""), Err(InputError::NotNumeric));
}

#[test]
fn parse_difficulty_reads_the_three_letters() {
    assert_eq!(parse_difficulty("E"), Some(Difficulty::Easy));
    assert_eq!(parse_difficulty("e"), Some(Difficulty::Easy));
    assert_eq!(parse_difficulty(" M\n"), Some(Difficulty::Medium));
    assert_eq!(parse_difficulty("m"), Some(Difficulty::Medium));
    assert_eq!(parse_difficulty("D"), Some(Difficulty::Hard));
    assert_eq!(parse_difficulty("d "), Some(Difficulty::Hard));
}

#[test]
fn parse_difficulty_rejects_everything_else() {
    assert_eq!(parse_difficulty("x"), None);
    assert_eq!(parse_difficulty("EM"), None);
    assert_eq!(parse_difficulty(""), None);
    assert_eq!(parse_difficulty("easy"), None);
}

#[test]
fn attempt_limits_match_the_difficulties() {
    assert_eq!(Difficulty::Easy.attempt_limit(), 10);
    assert_eq!(Difficulty::Medium.attempt_limit(), 5);
    assert_eq!(Difficulty::Hard.attempt_limit(), 3);
}

#[test]
fn parse_upper_bound_wants_more_than_ten() {
    assert_eq!(parse_upper_bound("11"), Ok(11));
    assert_eq!(parse_upper_bound(" 100\n"), Ok(100));
    assert_eq!(parse_upper_bound("10"), Err(InputError::OutOfRange));
    assert_eq!(parse_upper_bound("0"), Err(InputError::OutOfRange));
    assert_eq!(parse_upper_bound("ten"), Err(InputError::NotNumeric));
}

#[test]
fn parse_yes_no_reads_the_two_letters() {
    assert_eq!(parse_yes_no("Y"), Some(true));
    assert_eq!(parse_yes_no(" y\n"), Some(true));
    assert_eq!(parse_yes_no("N"), Some(false));
    assert_eq!(parse_yes_no("n"), Some(false));
    assert_eq!(parse_yes_no("maybe"), None);
    assert_eq!(parse_yes_no(""), None);
}

#[test]
fn play_again_only_on_the_letter_y() {
    assert!(play_again("Y"));
    assert!(play_again(" y\n"));
    assert!(!play_again("yes"));
    assert!(!play_again("n"));
    assert!(!play_again(""));
}
