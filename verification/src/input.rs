//! The input boundary policy: how one line of player input becomes a guess.

use vstd::prelude::*;

verus! {

/// The reserved input meaning the player requests to quit. An empty or
/// unreadable line is treated the same way, never as a crash.
pub const QUIT_SENTINEL: char = '*';

/// The guess derived from one line of input, `None` standing for a line that
/// could not be read: the line's first character, or the quit sentinel when
/// the line is empty or unreadable.
pub fn guess_from_line(line: Option<&str>) -> (c: char)
    ensures
        line is None ==> c == QUIT_SENTINEL,
        line matches Some(s) ==> c == (if s@.len() == 0 {
            QUIT_SENTINEL
        } else {
            s@[0]
        }),
{
    match line {
        Some(s) => {
            if s.unicode_len() == 0 {
                QUIT_SENTINEL
            } else {
                s.get_char(0)
            }
        },
        None => QUIT_SENTINEL,
    }
}

} // verus!
