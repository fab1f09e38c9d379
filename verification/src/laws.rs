//! Laws of the game's transition function, stated once for all inputs
//! and proved against `step_spec`.

use crate::game::{bump, hint_spec, step_spec, Action, Game, Hint, Screen};
use crate::input::{is_u32_numeral, numeral_value, trimmed};
use vstd::prelude::*;

verus! {

/// The game after a run of guess-loop inputs, fed one line at a time.
/// No transition inside the guess loop draws a secret, so the draw
/// handed to each step does not matter; zero stands in for it.
pub open spec fn feed_lines(g: Game, lines: Seq<Seq<u8>>) -> Game
    decreases lines.len(),
{
    if lines.len() == 0 {
        g
    } else {
        feed_lines(step_spec(g, lines[0], 0).0, lines.drop_first())
    }
}

/// How many of the lines are valid numeric guesses.
pub open spec fn count_valid_guesses(lines: Seq<Seq<u8>>) -> nat
    decreases lines.len(),
{
    if lines.len() == 0 {
        0
    } else {
        (if is_u32_numeral(trimmed(lines[0])) {
            1nat
        } else {
            0nat
        }) + count_valid_guesses(lines.drop_first())
    }
}

/// Whether none of the lines is a valid guess of exactly `secret`.
pub open spec fn no_winning_guess(lines: Seq<Seq<u8>>, secret: u32) -> bool {
    forall|i: int|
        0 <= i < lines.len() ==> (is_u32_numeral(trimmed(#[trigger] lines[i]))
            ==> numeral_value(trimmed(lines[i])) != secret)
}

/// While guessing, a line that does not parse as a number changes
/// nothing: no attempt is counted and the guess screen stays active.
pub proof fn lemma_invalid_guess_is_noop(g: Game, line: Seq<u8>, draw: u32)
    requires
        g.screen == Screen::Guessing,
        !is_u32_numeral(trimmed(line)),
    ensures
        step_spec(g, line, draw) == (g, Action::Continue),
{
}

/// While guessing, a valid guess equal to the secret number ends the
/// round: the game moves to the win screen, the winning guess is
/// recorded, and one more attempt is counted.
pub proof fn lemma_winning_guess(g: Game, line: Seq<u8>, draw: u32)
    requires
        g.screen == Screen::Guessing,
        is_u32_numeral(trimmed(line)),
        numeral_value(trimmed(line)) == g.secret_number,
    ensures
        step_spec(g, line, draw).0.screen == Screen::Win,
        step_spec(g, line, draw).0.attempts == bump(g.attempts),
        step_spec(g, line, draw).0.attempt == g.secret_number,
        step_spec(g, line, draw).1 == Action::Continue,
{
}

/// While guessing, a valid guess different from the secret number keeps
/// the round going, and the next state's hint points at the secret:
/// "higher" exactly when the guess was below it, "lower" otherwise.
pub proof fn lemma_hint_after_guess(g: Game, line: Seq<u8>, draw: u32)
    requires
        g.screen == Screen::Guessing,
        is_u32_numeral(trimmed(line)),
        numeral_value(trimmed(line)) != g.secret_number,
    ensures
        step_spec(g, line, draw).0.screen == Screen::Guessing,
        hint_spec(step_spec(g, line, draw).0) == (if numeral_value(trimmed(line))
            < g.secret_number {
            Some(Hint::Higher)
        } else {
            Some(Hint::Lower)
        }),
{
}

/// While guessing, the attempt counter counts exactly the valid numeric
/// guesses: lines none of which hits the secret keep the guess loop
/// active and raise `attempts` by the number of lines that parse,
/// leaving the secret number and the difficulty alone.
pub proof fn lemma_attempts_count_valid_guesses(g: Game, lines: Seq<Seq<u8>>)
    requires
        g.screen == Screen::Guessing,
        no_winning_guess(lines, g.secret_number),
        g.attempts + count_valid_guesses(lines) <= u32::MAX,
    ensures
        feed_lines(g, lines).screen == Screen::Guessing,
        feed_lines(g, lines).attempts == g.attempts + count_valid_guesses(lines),
        feed_lines(g, lines).secret_number == g.secret_number,
        feed_lines(g, lines).difficulty == g.difficulty,
    decreases lines.len(),
{
    if lines.len() > 0 {
        let g1 = step_spec(g, lines[0], 0).0;
        assert forall|i: int|
            0 <= i < lines.drop_first().len() && is_u32_numeral(
                trimmed(#[trigger] lines.drop_first()[i]),
            ) implies numeral_value(trimmed(lines.drop_first()[i])) != g1.secret_number by {
            assert(lines.drop_first()[i] == lines[i + 1]);
        }
        lemma_attempts_count_valid_guesses(g1, lines.drop_first());
    }
}

/// A round ends exactly on the winning guess: after lines that never hit
/// the secret, one more line that parses to it moves the game to the win
/// screen, with one attempt counted for each valid guess, the winning
/// one included and the invalid lines not counted at all.
pub proof fn lemma_win_ends_round(g: Game, lines: Seq<Seq<u8>>, last: Seq<u8>)
    requires
        g.screen == Screen::Guessing,
        no_winning_guess(lines, g.secret_number),
        is_u32_numeral(trimmed(last)),
        numeral_value(trimmed(last)) == g.secret_number,
        g.attempts + count_valid_guesses(lines) + 1 <= u32::MAX,
    ensures
        step_spec(feed_lines(g, lines), last, 0).0.screen == Screen::Win,
        step_spec(feed_lines(g, lines), last, 0).0.attempts == g.attempts + count_valid_guesses(
            lines,
        ) + 1,
{
    lemma_attempts_count_valid_guesses(g, lines);
    lemma_winning_guess(feed_lines(g, lines), last, 0);
}

} // verus!
