//! The guessing-state engine: per-letter reveal tracking, turn accounting
//! and win/loss determination.

use vstd::prelude::*;

verus! {

/// How many wrong guesses a game allows before it is lost.
pub const ALLOWED_ATTEMPTS: u8 = 5;

/// One character position of the secret word, with its own reveal state.
#[derive(Clone, Copy, PartialEq, Eq, Structural, Debug)]
pub struct Letter {
    /// The character at this position, case-sensitive, as the source word has it.
    pub character: char,
    /// Whether the player has guessed this character yet.
    pub revealed: bool,
}

/// The outcome of evaluating the state after a guess.
#[derive(Clone, Copy, PartialEq, Eq, Structural, Debug)]
pub enum GameProgress {
    InProgress,
    Won,
    Lost,
}

/// The characters of a letter sequence, in order: concatenated, they are the
/// secret word.
pub open spec fn word_of(letters: Seq<Letter>) -> Seq<char> {
    letters.map(|i: int, l: Letter| l.character)
}

/// Whether some position of the word holds the character `c`.
pub open spec fn has_char(letters: Seq<Letter>, c: char) -> bool {
    exists|i: int| 0 <= i < letters.len() && letters[i].character == c
}

/// Whether every position of the word has been revealed.
pub open spec fn all_revealed(letters: Seq<Letter>) -> bool {
    forall|i: int| 0 <= i < letters.len() ==> letters[i].revealed
}

/// The letter sequence after guessing `c`: every position holding `c` is
/// revealed, every other position keeps its state, no character changes.
pub open spec fn reveal_guess(letters: Seq<Letter>, c: char) -> Seq<Letter> {
    letters.map(
        |i: int, l: Letter|
            Letter { character: l.character, revealed: l.revealed || l.character == c },
    )
}

/// The turn counter after guessing `c`: unchanged when the word contains `c`,
/// otherwise down by one, floored at zero.
pub open spec fn turns_after(turns_left: u8, letters: Seq<Letter>, c: char) -> u8 {
    if has_char(letters, c) {
        turns_left
    } else if turns_left > 0 {
        (turns_left - 1) as u8
    } else {
        0
    }
}

/// The progress read off a state. The win check comes first, on purpose:
/// a guess that reveals the last letter while the turn counter stands at
/// zero still counts as a win.
pub open spec fn progress_of(turns_left: u8, letters: Seq<Letter>) -> GameProgress {
    if all_revealed(letters) {
        GameProgress::Won
    } else if turns_left > 0 {
        GameProgress::InProgress
    } else {
        GameProgress::Lost
    }
}

/// One unrevealed `Letter` per character of the word, in order.
pub fn create_letters(word: &str) -> (letters: Vec<Letter>)
    ensures
        letters@.len() == word@.len(),
        forall|i: int|
            0 <= i < word@.len() ==> letters@[i] == (Letter {
                character: word@[i],
                revealed: false,
            }),
        word_of(letters@) == word@,
{
    let n = word.unicode_len();
    let mut letters: Vec<Letter> = Vec::new();
    let mut i: usize = 0;
    while i < n
        invariant
            n == word@.len(),
            i <= n,
            letters@.len() == i,
            forall|j: int|
                0 <= j < i ==> letters@[j] == (Letter { character: word@[j], revealed: false }),
        decreases n - i,
    {
        let c = word.get_char(i);
        letters.push(Letter { character: c, revealed: false });
        i += 1;
    }
    proof {
        assert(word_of(letters@) =~= word@);
    }
    letters
}

/// The progress of a state: `Won` if every letter is revealed, else `Lost`
/// when no turns remain, else `InProgress`. The win check comes first.
pub fn check_progress(turns_left: u8, letters: &Vec<Letter>) -> (progress: GameProgress)
    ensures
        progress == progress_of(turns_left, letters@),
{
    let mut all: bool = true;
    let n = letters.len();
    let mut i: usize = 0;
    while i < n
        invariant
            n == letters@.len(),
            i <= n,
            all == (forall|j: int| 0 <= j < i ==> letters@[j].revealed),
        decreases n - i,
    {
        if !letters[i].revealed {
            all = false;
        }
        i += 1;
    }
    if all {
        GameProgress::Won
    } else if turns_left > 0 {
        GameProgress::InProgress
    } else {
        GameProgress::Lost
    }
}

/// The masked progress data for display: each revealed position shows its
/// character, each hidden one an underscore.
pub fn masked_progress(letters: &Vec<Letter>) -> (display: Vec<char>)
    ensures
        display@.len() == letters@.len(),
        forall|i: int|
            0 <= i < letters@.len() ==> display@[i] == (if letters@[i].revealed {
                letters@[i].character
            } else {
                '_'
            }),
{
    let mut display: Vec<char> = Vec::new();
    let n = letters.len();
    let mut i: usize = 0;
    while i < n
        invariant
            n == letters@.len(),
            i <= n,
            display@.len() == i,
            forall|j: int|
                0 <= j < i ==> display@[j] == (if letters@[j].revealed {
                    letters@[j].character
                } else {
                    '_'
                }),
        decreases n - i,
    {
        if letters[i].revealed {
            display.push(letters[i].character);
        } else {
            display.push('_');
        }
        i += 1;
    }
    display
}

/// Guessing a character the word contains reveals every position holding it,
/// leaves every other position's state as it was, and costs no turn.
pub proof fn lemma_hit(letters: Seq<Letter>, turns_left: u8, c: char)
    requires
        has_char(letters, c),
    ensures
        forall|i: int|
            0 <= i < letters.len() && letters[i].character == c ==> reveal_guess(
                letters,
                c,
            )[i].revealed,
        forall|i: int|
            0 <= i < letters.len() && letters[i].character != c ==> reveal_guess(letters, c)[i]
                == letters[i],
        turns_after(turns_left, letters, c) == turns_left,
{
}

/// Guessing a character absent from the word reveals nothing and costs
/// exactly one turn while any remain.
pub proof fn lemma_miss(letters: Seq<Letter>, turns_left: u8, c: char)
    requires
        !has_char(letters, c),
        turns_left >= 1,
    ensures
        reveal_guess(letters, c) == letters,
        turns_after(turns_left, letters, c) == turns_left - 1,
{
    assert(reveal_guess(letters, c) =~= letters);
}

/// A win takes priority over a loss: with every letter revealed, the progress
/// is `Won` even when the turn counter is exhausted on the same evaluation.
pub proof fn lemma_win_priority(letters: Seq<Letter>)
    requires
        all_revealed(letters),
    ensures
        progress_of(0, letters) == GameProgress::Won,
{
}

/// Re-guessing a character the word contains is idempotent: the letters do
/// not change again, and no turn is ever spent on it, however often it is
/// repeated and whether or not its positions were revealed before.
pub proof fn lemma_reguess_idempotent(letters: Seq<Letter>, turns_left: u8, c: char)
    requires
        has_char(letters, c),
    ensures
        reveal_guess(reveal_guess(letters, c), c) == reveal_guess(letters, c),
        turns_after(turns_left, reveal_guess(letters, c), c) == turns_left,
{
    assert(reveal_guess(reveal_guess(letters, c), c) =~= reveal_guess(letters, c));
    let i = choose|i: int| 0 <= i < letters.len() && letters[i].character == c;
    assert(reveal_guess(letters, c)[i].character == c);
    assert(has_char(reveal_guess(letters, c), c));
}

/// One game's state: the secret word's per-character reveal tracking and the
/// remaining-attempts counter.
pub struct GameState {
    /// One entry per character of the secret word, in order, never resized.
    pub letters: Vec<Letter>,
    /// How many wrong guesses remain; non-increasing, floored at zero.
    pub turns_left: u8,
    /// The secret word itself, kept for the end-of-game display.
    pub secret_word: String,
}

impl GameState {
    /// Well-formedness: the letters, read in order, spell the secret word.
    pub open spec fn wf(self) -> bool {
        word_of(self.letters@) == self.secret_word@
    }

    /// A fresh game for the given secret word: one unrevealed letter per
    /// character and the full turn budget.
    pub fn new(word: String, budget: u8) -> (s: GameState)
        ensures
            s.wf(),
            s.letters@.len() == word@.len(),
            forall|i: int|
                0 <= i < word@.len() ==> s.letters@[i] == (Letter {
                    character: word@[i],
                    revealed: false,
                }),
            s.turns_left == budget,
            s.secret_word@ == word@,
    {
        let letters = create_letters(word.as_str());
        GameState { letters, turns_left: budget, secret_word: word }
    }

    /// Evaluates one guessed character: reveals every position holding it,
    /// spends a turn exactly when no position holds it, and reports the
    /// resulting progress. A guess never changes the word itself, and
    /// guessing a character the word contains never costs a turn, revealed
    /// already or not.
    pub fn guess(&mut self, c: char) -> (progress: GameProgress)
        ensures
            final(self).letters@ == reveal_guess(old(self).letters@, c),
            final(self).turns_left == turns_after(old(self).turns_left, old(self).letters@, c),
            final(self).secret_word@ == old(self).secret_word@,
            old(self).wf() ==> final(self).wf(),
            progress == progress_of(final(self).turns_left, final(self).letters@),
    {
        let mut at_least_one_revealed = false;
        let n = self.letters.len();
        let mut i: usize = 0;
        while i < n
            invariant
                n == self.letters@.len(),
                i <= n,
                self.turns_left == old(self).turns_left,
                self.secret_word == old(self).secret_word,
                forall|j: int| i <= j < n ==> self.letters@[j] == old(self).letters@[j],
                forall|j: int|
                    0 <= j < i ==> self.letters@[j] == (Letter {
                        character: old(self).letters@[j].character,
                        revealed: old(self).letters@[j].revealed || old(
                            self,
                        ).letters@[j].character == c,
                    }),
                at_least_one_revealed == exists|j: int|
                    0 <= j < i && old(self).letters@[j].character == c,
            decreases n - i,
        {
            if self.letters[i].character == c {
                self.letters[i] = Letter { character: c, revealed: true };
                at_least_one_revealed = true;
            }
            i += 1;
        }
        if !at_least_one_revealed {
            if self.turns_left > 0 {
                self.turns_left = self.turns_left - 1;
            }
        }
        proof {
            assert(self.letters@ =~= reveal_guess(old(self).letters@, c));
            assert(word_of(self.letters@) =~= word_of(old(self).letters@));
        }
        check_progress(self.turns_left, &self.letters)
    }
}

} // verus!
