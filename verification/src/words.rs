//! The word source: one capability, "supply one word from the English
//! corpus".  The draw is random, so nothing is promised of the word; the
//! round start validates it before use.

use vstd::prelude::*;

verus! {

/// Relies on random_word::get(Lang::En): returns one word drawn at random
/// from the crate's embedded English word list (the call panics only if
/// that embedded list were empty).  The word is random, so nothing is
/// promised of it; `GameState::start_round` accepts it only after checking
/// that it is a valid secret word.
#[verifier::external_body]
pub(crate) fn draw_word() -> String {
    random_word::get(random_word::Lang::En).to_owned()
}

} // verus!
