//! A terminal number-guessing game, as a verified library.
//!
//! The library holds the game's whole decision logic: the difficulty table,
//! the parsing of player input, and the screen-to-screen state machine.
//! Rendering and reading lines are left to the surrounding program.

mod difficulty;
mod game;
mod input;
mod laws;
mod rng;

pub use difficulty::Difficulty;
pub use game::{bump, hint_spec, start_state, step_spec, Action, Game, Hint, Screen};
pub use laws::{
    count_valid_guesses, feed_lines, lemma_attempts_count_valid_guesses, lemma_hint_after_guess,
    lemma_invalid_guess_is_noop, lemma_win_ends_round, lemma_winning_guess, no_winning_guess,
};
pub use input::{is_u32_numeral, numeral_value, parse_u32, trim, trimmed};
