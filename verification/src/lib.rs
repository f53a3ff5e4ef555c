//! A terminal word-guessing game engine.
//!
//! A secret word is chosen at random from a list of candidates; the player
//! guesses one character at a time until the whole word is revealed (a win)
//! or a fixed budget of wrong guesses is spent (a loss). This crate holds the
//! game's state machine — per-letter reveal tracking, turn accounting and
//! win/loss determination — together with word selection and the policy that
//! turns one line of player input into a guess. Reading the word list and
//! talking to the terminal are left to the host program.

pub mod game;
pub mod input;
pub mod words;
