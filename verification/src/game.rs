//! The game's state machine: screens, transitions on lines of input,
//! and the hint shown while guessing.

use crate::difficulty::Difficulty;
use crate::input::{is_u32_numeral, numeral_value, parse_u32, trim, trimmed};
use crate::rng::random_in_range;
use vstd::prelude::*;

verus! {

/// The screen the game currently shows.
#[derive(Clone, Copy, PartialEq, Eq, Structural, Debug)]
pub enum Screen {
    MainMenu,
    DifficultySelect,
    Guessing,
    Win,
    Exited,
}

/// What the surrounding program is asked to do after a step.
#[derive(Clone, Copy, PartialEq, Eq, Structural, Debug)]
pub enum Action {
    /// Render the current screen and read the next line.
    Continue,
    /// Show the leaderboard once, then render the main menu again.
    Leaderboard,
    /// Terminate the program.
    Exit,
}

/// The feedback shown after a non-winning guess.
#[derive(Clone, Copy, PartialEq, Eq, Structural, Debug)]
pub enum Hint {
    Higher,
    Lower,
}

/// The whole state of one game: the screen shown, the chosen difficulty,
/// the secret number, how many valid guesses were made, and the last one.
#[derive(Clone, Copy, PartialEq, Eq, Structural, Debug)]
pub struct Game {
    pub screen: Screen,
    pub difficulty: Difficulty,
    pub secret_number: u32,
    pub attempts: u32,
    pub attempt: u32,
}

/// The state of a fresh game: at the main menu, no difficulty chosen,
/// secret number and counters zero.
pub open spec fn start_state() -> Game {
    Game {
        screen: Screen::MainMenu,
        difficulty: Difficulty::Unset,
        secret_number: 0,
        attempts: 0,
        attempt: 0,
    }
}

/// One more valid guess, saturating at the counter's maximum.
pub open spec fn bump(a: u32) -> u32 {
    if a < u32::MAX {
        (a + 1) as u32
    } else {
        a
    }
}

/// The transition function of the game: from a state and one line of
/// input to the next state and the action asked of the surrounding
/// program. `draw` is the number put in place of the secret when a round
/// starts; it is read only on the transition that enters the guess loop.
pub open spec fn step_spec(pre: Game, line: Seq<u8>, draw: u32) -> (Game, Action) {
    let t = trimmed(line);
    match pre.screen {
        Screen::MainMenu => {
            if t == seq![49u8] {
                (Game { screen: Screen::DifficultySelect, ..pre }, Action::Continue)
            } else if t == seq![50u8] {
                (pre, Action::Leaderboard)
            } else if t == seq![51u8] {
                (Game { screen: Screen::Exited, ..pre }, Action::Exit)
            } else {
                (pre, Action::Continue)
            }
        },
        Screen::DifficultySelect => {
            if t == seq![49u8] {
                (
                    Game {
                        screen: Screen::Guessing,
                        difficulty: Difficulty::Easy,
                        secret_number: draw,
                        ..pre
                    },
                    Action::Continue,
                )
            } else if t == seq![50u8] {
                (
                    Game {
                        screen: Screen::Guessing,
                        difficulty: Difficulty::Medium,
                        secret_number: draw,
                        ..pre
                    },
                    Action::Continue,
                )
            } else if t == seq![51u8] {
                (
                    Game {
                        screen: Screen::Guessing,
                        difficulty: Difficulty::Hard,
                        secret_number: draw,
                        ..pre
                    },
                    Action::Continue,
                )
            } else {
                (pre, Action::Continue)
            }
        },
        Screen::Guessing => {
            if is_u32_numeral(t) {
                let g = numeral_value(t) as u32;
                (
                    Game {
                        screen: if g == pre.secret_number {
                            Screen::Win
                        } else {
                            Screen::Guessing
                        },
                        attempts: bump(pre.attempts),
                        attempt: g,
                        ..pre
                    },
                    Action::Continue,
                )
            } else {
                (pre, Action::Continue)
            }
        },
        Screen::Win => (start_state(), Action::Continue),
        Screen::Exited => (pre, Action::Exit),
    }
}

/// The hint that belongs to a state: `None` before any valid guess,
/// otherwise "higher" when the last guess was below the secret number
/// and "lower" when it was not.
pub open spec fn hint_spec(g: Game) -> Option<Hint> {
    if g.attempts == 0 {
        None
    } else if g.attempt < g.secret_number {
        Some(Hint::Higher)
    } else {
        Some(Hint::Lower)
    }
}

/// Whether the trimmed line is exactly the one menu byte `c`.
fn is_single(t: &Vec<u8>, c: u8) -> (b: bool)
    ensures
        b == (t@ == seq![c]),
{
    if t.len() == 1 {
        let r: bool = t[0] == c;
        proof {
            if r {
                assert(t@ =~= seq![c]);
            } else {
                assert(seq![c][0] == c);
            }
        }
        r
    } else {
        proof {
            assert(seq![c].len() == 1);
        }
        false
    }
}

impl Game {
    /// The secret number lies within the chosen difficulty's range.
    pub open spec fn secret_in_range(self) -> bool {
        match self.difficulty.range_spec() {
            Some(r) => r.0 <= self.secret_number && self.secret_number <= r.1,
            None => false,
        }
    }

    /// Well-formedness: while the guess loop is active, a difficulty has
    /// been chosen and the secret number lies within its range.
    pub open spec fn wf(self) -> bool {
        self.screen == Screen::Guessing ==> self.secret_in_range()
    }

    /// A fresh game at the main menu.
    pub fn new() -> (g: Game)
        ensures
            g == start_state(),
    {
        Game {
            screen: Screen::MainMenu,
            difficulty: Difficulty::Unset,
            secret_number: 0,
            attempts: 0,
            attempt: 0,
        }
    }

    /// Restore the fresh-game state, whatever came before.
    pub fn reset(&mut self)
        ensures
            *final(self) == start_state(),
    {
        self.screen = Screen::MainMenu;
        self.difficulty = Difficulty::Unset;
        self.secret_number = 0;
        self.attempts = 0;
        self.attempt = 0;
    }

    /// Draw a new secret number within the chosen difficulty's range.
    /// Called before a difficulty is chosen, it draws nothing and
    /// re-enters difficulty selection instead.
    pub fn generate_secret_number(&mut self)
        ensures
            old(self).difficulty == Difficulty::Unset ==> {
                &&& final(self).screen == Screen::DifficultySelect
                &&& final(self).difficulty == old(self).difficulty
                &&& final(self).secret_number == old(self).secret_number
                &&& final(self).attempts == old(self).attempts
                &&& final(self).attempt == old(self).attempt
            },
            old(self).difficulty != Difficulty::Unset ==> {
                &&& final(self).secret_in_range()
                &&& final(self).screen == old(self).screen
                &&& final(self).difficulty == old(self).difficulty
                &&& final(self).attempts == old(self).attempts
                &&& final(self).attempt == old(self).attempt
            },
    {
        match self.difficulty.range() {
            Some(r) => {
                self.secret_number = random_in_range(r.0, r.1);
            },
            None => {
                self.screen = Screen::DifficultySelect;
            },
        }
    }

    /// Put a chosen number in place of the drawn secret, touching nothing
    /// else: the seam that makes a round deterministic.
    pub fn set_secret_number(&mut self, n: u32)
        ensures
            final(self).secret_number == n,
            final(self).screen == old(self).screen,
            final(self).difficulty == old(self).difficulty,
            final(self).attempts == old(self).attempts,
            final(self).attempt == old(self).attempt,
    {
        self.secret_number = n;
    }

    /// Feed one line of input to the game and learn what to do next.
    ///
    /// This is the whole state machine: menu dispatch, difficulty choice
    /// (which draws the secret number), the guess loop, and leaving the
    /// win screen. The new state and the action are exactly `step_spec`
    /// of the old state, and a round only ever starts with a secret
    /// within the chosen difficulty's range.
    pub fn step(&mut self, line: &[u8]) -> (a: Action)
        ensures
            (*final(self), a) == step_spec(*old(self), line@, final(self).secret_number),
            old(self).screen == Screen::DifficultySelect && final(self).screen == Screen::Guessing
                ==> final(self).secret_in_range(),
            old(self).wf() ==> final(self).wf(),
    {
        let t: Vec<u8> = trim(line);
        match self.screen {
            Screen::MainMenu => {
                if is_single(&t, 49) {
                    self.screen = Screen::DifficultySelect;
                    Action::Continue
                } else if is_single(&t, 50) {
                    Action::Leaderboard
                } else if is_single(&t, 51) {
                    self.screen = Screen::Exited;
                    Action::Exit
                } else {
                    Action::Continue
                }
            },
            Screen::DifficultySelect => {
                let choice: Option<Difficulty> = if is_single(&t, 49) {
                    Some(Difficulty::Easy)
                } else if is_single(&t, 50) {
                    Some(Difficulty::Medium)
                } else if is_single(&t, 51) {
                    Some(Difficulty::Hard)
                } else {
                    None
                };
                match choice {
                    Some(d) => {
                        self.difficulty = d;
                        self.generate_secret_number();
                        self.screen = Screen::Guessing;
                        Action::Continue
                    },
                    None => Action::Continue,
                }
            },
            Screen::Guessing => {
                match parse_u32(t.as_slice()) {
                    Some(g) => {
                        self.attempt = g;
                        self.attempts = if self.attempts < u32::MAX {
                            self.attempts + 1
                        } else {
                            self.attempts
                        };
                        if g == self.secret_number {
                            self.screen = Screen::Win;
                        }
                        Action::Continue
                    },
                    None => Action::Continue,
                }
            },
            Screen::Win => {
                self.reset();
                Action::Continue
            },
            Screen::Exited => Action::Exit,
        }
    }

    /// The feedback to render while guessing: "higher" when the last
    /// guess was below the secret number, "lower" otherwise, and nothing
    /// before the first valid guess.
    pub fn hint(&self) -> (h: Option<Hint>)
        ensures
            h == hint_spec(*self),
    {
        if self.attempts == 0 {
            None
        } else if self.attempt < self.secret_number {
            Some(Hint::Higher)
        } else {
            Some(Hint::Lower)
        }
    }
}

} // verus!
