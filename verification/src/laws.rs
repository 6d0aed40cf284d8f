//! Laws of the guess step that relate several calls: repeated missed
//! guesses, monotonicity of the mask over a whole round, and the
//! immutability of a finished round.

use vstd::prelude::*;
use crate::game::{GameView, RoundOutcome, spec_guess, lemma_spec_guess_wf};
use crate::letters::contains_char;

verus! {

/// A sequence of guesses applied in order.
pub open spec fn apply_guesses(v: GameView, gs: Seq<Seq<char>>) -> GameView
    decreases gs.len(),
{
    if gs.len() == 0 {
        v
    } else {
        apply_guesses(spec_guess(v, gs[0]), gs.drop_first())
    }
}

/// A sequence of guesses keeps the round well formed, never touches the
/// secret, and never hides a revealed mask position: the mask only gains.
pub proof fn lemma_mask_monotonic(v: GameView, gs: Seq<Seq<char>>)
    requires
        v.wf(),
    ensures
        apply_guesses(v, gs).wf(),
        apply_guesses(v, gs).secret == v.secret,
        forall|i: int|
            0 <= i < v.secret.len() && v.mask[i] == v.secret[i] ==> apply_guesses(v, gs).mask[i]
                == v.secret[i],
    decreases gs.len(),
{
    if gs.len() > 0 {
        lemma_spec_guess_wf(v, gs[0]);
        lemma_mask_monotonic(spec_guess(v, gs[0]), gs.drop_first());
    }
}

/// Guessing a single character that does not occur in the word twice in a
/// row leaves the mask alone and counts exactly two wrong guesses, each
/// call independent of the other.  The round must have room for both
/// guesses: after a losing guess the second call would change nothing.
pub proof fn lemma_missed_letter_twice(v: GameView, c: char)
    requires
        v.wf(),
        v.outcome == RoundOutcome::InProgress,
        !contains_char(v.secret, c),
        v.guess_count + 1 < v.max_guesses,
    ensures
        apply_guesses(v, seq![seq![c], seq![c]]).guess_count == v.guess_count + 2,
        apply_guesses(v, seq![seq![c], seq![c]]).mask == v.mask,
{
    let g = seq![c];
    let v1 = spec_guess(v, g);
    lemma_missed_letter_once(v, c);
    lemma_missed_letter_once(v1, c);
    let gs = seq![seq![c], seq![c]];
    assert(gs[0] == g);
    assert(gs.drop_first() =~= seq![g]);
    assert(apply_guesses(v, gs) == apply_guesses(v1, seq![g]));
    assert(apply_guesses(v1, seq![g]) == apply_guesses(spec_guess(v1, g), seq![g].drop_first()));
    assert(seq![g].drop_first() =~= Seq::<Seq<char>>::empty());
    assert(apply_guesses(spec_guess(v1, g), Seq::<Seq<char>>::empty()) == spec_guess(v1, g));
}

/// One missed single-character guess: the mask stays, the count grows by
/// one, and the round stays in progress short of the guess budget.
pub proof fn lemma_missed_letter_once(v: GameView, c: char)
    requires
        v.wf(),
        v.outcome == RoundOutcome::InProgress,
        !contains_char(v.secret, c),
    ensures
        spec_guess(v, seq![c]).mask == v.mask,
        spec_guess(v, seq![c]).guess_count == v.guess_count + 1,
        spec_guess(v, seq![c]).secret == v.secret,
        spec_guess(v, seq![c]).max_guesses == v.max_guesses,
        spec_guess(v, seq![c]).outcome == (if v.guess_count + 1 >= v.max_guesses {
            RoundOutcome::Lost
        } else {
            RoundOutcome::InProgress
        }),
{
    let g = seq![c];
    assert(!crate::game::any_hit(v.secret, g)) by {
        assert(forall|j: int| 0 <= j < g.len() ==> g[j] == c);
    }
    let m2 = crate::game::reveal_by_word(v.secret, v.mask, g);
    assert forall|i: int| 0 <= i < v.secret.len() implies m2[i] == v.mask[i] by {
        if contains_char(g, v.secret[i]) {
            let j = choose|j: int| 0 <= j < g.len() && g[j] == v.secret[i];
            assert(g[j] == c);
            assert(contains_char(v.secret, c));
        }
    }
    assert(m2 =~= v.mask);
    assert(m2 != v.secret);
}

/// Once a round is over, a guess changes nothing at all.
pub proof fn lemma_terminal_immutable(v: GameView, g: Seq<char>)
    requires
        v.outcome != RoundOutcome::InProgress,
    ensures
        spec_guess(v, g) == v,
{
}

} // verus!
