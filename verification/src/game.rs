//! The game state of one round: the secret word, the mask the player sees,
//! the count of wrong guesses, and the round's outcome, together with the
//! guess-processing step that drives them.

use vstd::prelude::*;
use crate::letters::{
    BLANK,
    contains_char,
    is_valid_word,
    normalize_guess,
    spec_normalize,
    str_to_chars,
    chars_to_string,
    vec_contains_char,
    spec_is_vowel,
};
use crate::mask::{initial_mask, vowel_count, hidden_vowel_count};

verus! {

/// The outcome of a round.  Terminal once `Won` or `Lost`.
#[derive(Clone, Copy, Debug, PartialEq, Eq, Structural)]
pub enum RoundOutcome {
    InProgress,
    Won,
    Lost,
}

/// The mathematical model of a round.
#[verifier::ext_equal]
pub ghost struct GameView {
    pub secret: Seq<char>,
    pub mask: Seq<char>,
    pub guess_count: int,
    pub max_guesses: int,
    pub outcome: RoundOutcome,
}

impl GameView {
    /// The internal invariant of a round.
    pub open spec fn wf(self) -> bool {
        &&& is_valid_word(self.secret)
        &&& self.mask.len() == self.secret.len()
        &&& (forall|i: int|
            0 <= i < self.secret.len() ==> (self.mask[i] == self.secret[i] || self.mask[i]
                == BLANK))
        &&& 1 <= self.max_guesses
        &&& 0 <= self.guess_count <= self.max_guesses
        &&& (self.outcome == RoundOutcome::InProgress ==> self.guess_count < self.max_guesses
            && self.mask != self.secret)
        &&& (self.outcome == RoundOutcome::Won ==> self.mask == self.secret)
        &&& (self.outcome == RoundOutcome::Lost ==> self.guess_count == self.max_guesses)
    }
}

/// Whether any character of the guess occurs in the secret.
pub open spec fn any_hit(secret: Seq<char>, g: Seq<char>) -> bool {
    exists|j: int| 0 <= j < g.len() && contains_char(secret, g[j])
}

/// The mask after a guess: a position shows its true character when it
/// already did, or when that character occurs in the guess; it stays blank
/// otherwise.  Revealing is therefore a union and never hides a position.
pub open spec fn reveal_by_word(secret: Seq<char>, mask: Seq<char>, g: Seq<char>) -> Seq<char> {
    Seq::new(
        secret.len(),
        |i: int|
            if contains_char(g, secret[i]) || mask[i] == secret[i] {
                secret[i]
            } else {
                BLANK
            },
    )
}

/// The outcome after a guess: a full mask wins, exhausting the guess budget
/// loses, anything else stays in progress.  The win check comes first.
pub open spec fn step_outcome(secret: Seq<char>, mask2: Seq<char>, count2: int, max: int) -> RoundOutcome {
    if mask2 == secret {
        RoundOutcome::Won
    } else if count2 >= max {
        RoundOutcome::Lost
    } else {
        RoundOutcome::InProgress
    }
}

/// One guess applied to a round, over the normalized guess `g`.
///
/// A terminal round, and an empty guess, change nothing.  Otherwise every
/// occurrence of every guessed character is revealed, and the wrong-guess
/// count grows by one exactly when no character of the guess occurs in the
/// secret: a single missed letter, or a full-word guess none of whose
/// letters occurs.  A wrong full-word guess with at least one matching
/// letter costs nothing.
pub open spec fn spec_guess(v: GameView, g: Seq<char>) -> GameView {
    if v.outcome != RoundOutcome::InProgress || g.len() == 0 {
        v
    } else {
        let mask2 = reveal_by_word(v.secret, v.mask, g);
        let count2 = if any_hit(v.secret, g) {
            v.guess_count
        } else {
            v.guess_count + 1
        };
        GameView {
            mask: mask2,
            guess_count: count2,
            outcome: step_outcome(v.secret, mask2, count2, v.max_guesses),
            ..v
        }
    }
}

/// A guess step keeps the round well formed.
pub proof fn lemma_spec_guess_wf(v: GameView, g: Seq<char>)
    requires
        v.wf(),
    ensures
        spec_guess(v, g).wf(),
{
    if v.outcome == RoundOutcome::InProgress && g.len() != 0 {
        let v2 = spec_guess(v, g);
        assert(v2.mask.len() == v.secret.len());
        if v2.outcome == RoundOutcome::Lost {
            assert(v2.guess_count == v.max_guesses);
        }
    }
}

/// A guess step never hides a revealed position.
pub proof fn lemma_spec_guess_monotonic(v: GameView, g: Seq<char>)
    requires
        v.wf(),
    ensures
        forall|i: int|
            0 <= i < v.secret.len() && v.mask[i] == v.secret[i] ==> spec_guess(v, g).mask[i]
                == v.secret[i],
{
}

/// One round of the game.
pub struct GameState {
    secret: Vec<char>,
    mask: Vec<char>,
    guess_count: usize,
    max_guesses: usize,
    outcome: RoundOutcome,
}

impl View for GameState {
    type V = GameView;

    closed spec fn view(&self) -> GameView {
        GameView {
            secret: self.secret@,
            mask: self.mask@,
            guess_count: self.guess_count as int,
            max_guesses: self.max_guesses as int,
            outcome: self.outcome,
        }
    }
}

/// Whether two character vectors hold the same characters.
fn chars_eq(a: &Vec<char>, b: &Vec<char>) -> (r: bool)
    ensures
        r == (a@ == b@),
{
    if a.len() != b.len() {
        proof {
            assert(a@ != b@);
        }
        return false;
    }
    let mut i: usize = 0;
    while i < a.len()
        invariant
            0 <= i <= a@.len(),
            a@.len() == b@.len(),
            forall|j: int| 0 <= j < i ==> a@[j] == b@[j],
        decreases a@.len() - i,
    {
        if a[i] != b[i] {
            proof {
                assert(a@ != b@);
            }
            return false;
        }
        i = i + 1;
    }
    proof {
        assert(a@ =~= b@);
    }
    true
}

impl GameState {
    /// Starts a round over the given secret word.
    ///
    /// Succeeds exactly when the word is non-empty lower-case ASCII letters,
    /// the guess budget is positive and at least one vowel may be hidden.
    /// The fresh round has no wrong guesses, is in progress, and its mask is
    /// an initial mask of the word: consonants hidden, between one and
    /// `max_hidden_vowels` vowels hidden.
    pub fn start_round(word: Vec<char>, max_guesses: usize, max_hidden_vowels: usize, seed: u64) -> (r:
        Option<GameState>)
        ensures
            (r is Some) <==> (is_valid_word(word@) && max_guesses >= 1 && max_hidden_vowels >= 1),
            (r matches Some(g) ==> g@.wf()),
            (r matches Some(g) ==> g@.secret == word@),
            (r matches Some(g) ==> g@.guess_count == 0),
            (r matches Some(g) ==> g@.max_guesses == max_guesses),
            (r matches Some(g) ==> g@.outcome == RoundOutcome::InProgress),
            (r matches Some(g) ==> forall|i: int|
                0 <= i < word@.len() && !spec_is_vowel(word@[i]) ==> g@.mask[i] == BLANK),
            (r matches Some(g) ==> forall|i: int|
                0 <= i < word@.len() ==> (g@.mask[i] == word@[i] || g@.mask[i] == BLANK)),
            (r matches Some(g) ==> (vowel_count(word@) == 0 ==> forall|i: int|
                0 <= i < word@.len() ==> g@.mask[i] == BLANK)),
            (r matches Some(g) ==> (vowel_count(word@) > 0 ==> 1 <= hidden_vowel_count(
                word@,
                g@.mask,
            ) <= max_hidden_vowels)),
            (r matches Some(g) ==> (vowel_count(word@) > 0 ==> hidden_vowel_count(word@, g@.mask)
                <= vowel_count(word@))),
    {
        let valid = crate::letters::check_valid_word(&word);
        if !valid || max_guesses < 1 || max_hidden_vowels < 1 {
            return None;
        }
        let mask = initial_mask(&word, max_hidden_vowels, seed);
        Some(
            GameState {
                secret: word,
                mask,
                guess_count: 0,
                max_guesses,
                outcome: RoundOutcome::InProgress,
            },
        )
    }

    /// Applies one raw guess: the input is trimmed and folded to lower case,
    /// then interpreted by `spec_guess`.  A terminal round, and a guess that
    /// is empty after trimming, leave the round unchanged.
    pub fn guess(&mut self, raw: &str)
        requires
            old(self)@.wf(),
        ensures
            final(self)@ == spec_guess(old(self)@, spec_normalize(raw@)),
            final(self)@.wf(),
    {
        proof {
            lemma_spec_guess_wf(old(self)@, spec_normalize(raw@));
        }
        let raw_chars = str_to_chars(raw);
        let g = normalize_guess(&raw_chars);
        if self.outcome != RoundOutcome::InProgress || g.len() == 0 {
            return;
        }
        let ghost gv = g@;
        // does any guessed character occur in the secret?
        let mut hit = false;
        let mut j: usize = 0;
        while j < g.len() && !hit
            invariant
                0 <= j <= g@.len(),
                hit ==> any_hit(self.secret@, g@),
                !hit ==> (forall|a: int| 0 <= a < j ==> !contains_char(self.secret@, g@[a])),
                self == old(self),
            decreases g@.len() - j + (if hit {
                0int
            } else {
                1int
            }),
        {
            if vec_contains_char(&self.secret, g[j]) {
                hit = true;
            } else {
                j = j + 1;
            }
        }
        proof {
            assert(hit == any_hit(self.secret@, g@));
        }
        // reveal every occurrence of every guessed character
        let mut mask2: Vec<char> = Vec::new();
        let mut i: usize = 0;
        while i < self.secret.len()
            invariant
                0 <= i <= self.secret@.len(),
                mask2@.len() == i,
                g@ == gv,
                self == old(self),
                old(self)@.wf(),
                forall|k: int|
                    0 <= k < i ==> mask2@[k] == reveal_by_word(self.secret@, self.mask@, g@)[k],
            decreases self.secret@.len() - i,
        {
            let c = self.secret[i];
            if vec_contains_char(&g, c) || self.mask[i] == c {
                mask2.push(c);
            } else {
                mask2.push(BLANK);
            }
            i = i + 1;
        }
        proof {
            assert(mask2@ =~= reveal_by_word(self.secret@, self.mask@, g@));
        }
        self.mask = mask2;
        if !hit {
            self.guess_count = self.guess_count + 1;
        }
        if chars_eq(&self.mask, &self.secret) {
            self.outcome = RoundOutcome::Won;
        } else if self.guess_count >= self.max_guesses {
            self.outcome = RoundOutcome::Lost;
        } else {
            self.outcome = RoundOutcome::InProgress;
        }
        proof {
            assert(self@ =~= spec_guess(old(self)@, spec_normalize(raw@)));
        }
    }

    /// The mask the player sees, as a string.
    pub fn mask_string(&self) -> (r: String)
        ensures
            r@ == self@.mask,
    {
        chars_to_string(&self.mask)
    }

    /// The secret word, as a string; shown only under the debug flag.
    pub fn secret_string(&self) -> (r: String)
        ensures
            r@ == self@.secret,
    {
        chars_to_string(&self.secret)
    }

    /// The count of wrong guesses so far.
    pub fn guess_count(&self) -> (r: usize)
        ensures
            r as int == self@.guess_count,
    {
        self.guess_count
    }

    /// The guess budget of the round.
    pub fn max_guesses(&self) -> (r: usize)
        ensures
            r as int == self@.max_guesses,
    {
        self.max_guesses
    }

    /// The round's outcome.
    pub fn outcome(&self) -> (r: RoundOutcome)
        ensures
            r == self@.outcome,
    {
        self.outcome
    }
}

} // verus!
