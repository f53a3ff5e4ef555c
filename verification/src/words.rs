//! Word selection: one candidate chosen at random becomes the secret word.

use vstd::prelude::*;
use rand::Rng;

verus! {

/// Relies on `rand::Rng::gen_range` over the range `0..n`: it returns a value
/// drawn from that range, so the result is below `n`. It panics only on an
/// empty range, which the precondition rules out.
#[verifier::external_body]
fn random_index(n: usize) -> (i: usize)
    requires
        n > 0,
    ensures
        i < n,
{
    rand::thread_rng().gen_range(0..n)
}

/// Selects the secret word at random from a non-empty candidate list. The
/// result is always a member of the list; an empty list admits no game, so
/// the host must reject it before calling.
pub fn select_word(words: &Vec<String>) -> (w: String)
    requires
        words@.len() > 0,
    ensures
        exists|i: int| 0 <= i < words@.len() && w@ == words@[i]@,
{
    let i = random_index(words.len());
    let w = words[i].clone();
    proof {
        assert(w@ == words@[i as int]@);
    }
    w
}

} // verus!
