//! The session: the navigation screen, the debug flag and the current
//! round, driven by normalized user intents.

use vstd::prelude::*;
use crate::game::{GameState, GameView, RoundOutcome, spec_guess};
use crate::letters::{spec_normalize, str_to_chars, chars_to_string};
use crate::nav::{Screen, Intent, spec_intent_allowed, intent_allowed, next_screen, spec_next_screen};
use crate::words::draw_word;

verus! {

/// The default guess budget of a round.
pub const DEFAULT_MAX_GUESSES: usize = 7;

/// The default cap on how many vowels the initial mask may hide.
pub const DEFAULT_MAX_HIDDEN_VOWELS: usize = 3;

/// What one handled intent asks of the caller.
#[derive(Clone, Copy, Debug, PartialEq, Eq, Structural)]
pub enum StepResult {
    /// Keep running.
    Continue,
    /// The player asked to leave.
    Quit,
    /// The word source could not supply a usable word; nothing changed.
    WordSourceUnavailable,
}

/// The mathematical model of a session.
#[verifier::ext_equal]
pub ghost struct SessionView {
    pub game: Option<GameView>,
    pub screen: Screen,
    pub debug: bool,
    pub max_guesses: int,
    pub max_hidden_vowels: int,
}

impl SessionView {
    /// The internal invariant of a session.
    pub open spec fn wf(self) -> bool {
        &&& self.max_guesses >= 1
        &&& self.max_hidden_vowels >= 1
        &&& (self.game matches Some(g) ==> g.wf())
        &&& (self.screen == Screen::Playing ==> (self.game matches Some(g) && g.outcome
            == RoundOutcome::InProgress))
        &&& (self.screen == Screen::RoundOver ==> (self.game matches Some(g) && g.outcome
            != RoundOutcome::InProgress))
    }
}

/// One play session: screen, debug flag, configuration, and the round.
pub struct Session {
    game: Option<GameState>,
    screen: Screen,
    debug: bool,
    max_guesses: usize,
    max_hidden_vowels: usize,
}

impl View for Session {
    type V = SessionView;

    closed spec fn view(&self) -> SessionView {
        SessionView {
            game: match self.game {
                Option::Some(g) => Option::Some(g@),
                Option::None => Option::None,
            },
            screen: self.screen,
            debug: self.debug,
            max_guesses: self.max_guesses as int,
            max_hidden_vowels: self.max_hidden_vowels as int,
        }
    }
}

/// A read-only snapshot for the rendering layer.
pub struct Snapshot {
    pub screen: Screen,
    pub secret_visible: bool,
    pub in_round: bool,
    pub mask: String,
    pub secret: String,
    pub guess_count: usize,
    pub max_guesses: usize,
    pub outcome: RoundOutcome,
}

impl Session {
    /// A fresh session on the main menu, with no round yet.
    pub fn new(max_guesses: usize, max_hidden_vowels: usize) -> (r: Session)
        requires
            max_guesses >= 1,
            max_hidden_vowels >= 1,
        ensures
            r@.wf(),
            r@.game is None,
            r@.screen == Screen::MainMenu,
            r@.debug == false,
            r@.max_guesses == max_guesses,
            r@.max_hidden_vowels == max_hidden_vowels,
    {
        Session {
            game: Option::None,
            screen: Screen::MainMenu,
            debug: false,
            max_guesses,
            max_hidden_vowels,
        }
    }

    /// Handles one normalized intent.
    ///
    /// An intent the transition table refuses on the current screen changes
    /// nothing.  A new game draws a word, and on success replaces the round
    /// and moves to the playing screen; if the word source hands back an
    /// unusable word the session is left untouched.  A guess is applied to
    /// the round as `spec_guess` says, and a round that thereby ends moves
    /// to the round-over screen.  The other intents only navigate, toggle
    /// the debug flag, or ask to quit.
    pub fn handle_intent(&mut self, intent: &Intent, seed: u64) -> (r: StepResult)
        requires
            old(self)@.wf(),
        ensures
            final(self)@.wf(),
            final(self)@.max_guesses == old(self)@.max_guesses,
            final(self)@.max_hidden_vowels == old(self)@.max_hidden_vowels,
            (!spec_intent_allowed(old(self)@.screen, *intent) ==> final(self)@ == old(self)@ && r
                == StepResult::Continue),
            (*intent is Quit ==> final(self)@ == old(self)@ && r == StepResult::Quit),
            (*intent is NewGame ==> ((final(self)@.game matches Some(g) && r
                == StepResult::Continue && g.wf() && g.guess_count == 0 && g.outcome
                == RoundOutcome::InProgress && g.max_guesses == old(self)@.max_guesses
                && final(self)@.screen == Screen::Playing && final(self)@.debug == old(
                self,
            )@.debug) || (r == StepResult::WordSourceUnavailable && final(self)@ == old(self)@))),
            (*intent matches Intent::Guess(t) ==> (spec_intent_allowed(old(self)@.screen, *intent)
                ==> (old(self)@.game matches Some(g0) && (final(self)@.game matches Some(g1) && r
                == StepResult::Continue && final(self)@.debug == old(self)@.debug && g1
                == spec_guess(g0, spec_normalize(t@)) && final(self)@.screen == (
            if g1.outcome != RoundOutcome::InProgress {
                Screen::RoundOver
            } else {
                Screen::Playing
            }))))),
            ((*intent is ViewRules || *intent is ReturnToMenu) && spec_intent_allowed(
                old(self)@.screen,
                *intent,
            ) ==> r == StepResult::Continue && final(self)@ == (SessionView {
                screen: spec_next_screen(old(self)@.screen, *intent),
                ..old(self)@
            })),
            (*intent is ToggleDebug && spec_intent_allowed(old(self)@.screen, *intent) ==> r
                == StepResult::Continue && final(self)@ == (SessionView {
                debug: !old(self)@.debug,
                ..old(self)@
            })),
    {
        if !intent_allowed(self.screen, intent) {
            return StepResult::Continue;
        }
        match intent {
            Intent::Quit => StepResult::Quit,
            Intent::NewGame => {
                let word = draw_word();
                let word_chars = str_to_chars(word.as_str());
                match GameState::start_round(
                    word_chars,
                    self.max_guesses,
                    self.max_hidden_vowels,
                    seed,
                ) {
                    Option::Some(g) => {
                        self.game = Option::Some(g);
                        self.screen = Screen::Playing;
                        StepResult::Continue
                    },
                    Option::None => StepResult::WordSourceUnavailable,
                }
            },
            Intent::Guess(text) => {
                match &mut self.game {
                    Option::Some(g) => {
                        g.guess(text.as_str());
                        if g.outcome() != RoundOutcome::InProgress {
                            self.screen = Screen::RoundOver;
                        } else {
                            self.screen = Screen::Playing;
                        }
                        StepResult::Continue
                    },
                    Option::None => {
                        // unreachable: the playing screen always has a round
                        StepResult::Continue
                    },
                }
            },
            Intent::ViewRules => {
                self.screen = next_screen(self.screen, intent);
                StepResult::Continue
            },
            Intent::ReturnToMenu => {
                self.screen = next_screen(self.screen, intent);
                StepResult::Continue
            },
            Intent::ToggleDebug => {
                self.debug = !self.debug;
                StepResult::Continue
            },
        }
    }

    /// The screen the session is on.
    pub fn screen(&self) -> (r: Screen)
        ensures
            r == self@.screen,
    {
        self.screen
    }

    /// A read-only snapshot of everything the rendering layer may show.
    /// Without a round, the word fields are empty and the counters zero.
    pub fn snapshot(&self) -> (s: Snapshot)
        ensures
            s.screen == self@.screen,
            s.secret_visible == self@.debug,
            s.in_round == (self@.game is Some),
            (self@.game matches Some(g) ==> s.mask@ == g.mask && s.secret@ == g.secret
                && s.guess_count as int == g.guess_count && s.max_guesses as int == g.max_guesses
                && s.outcome == g.outcome),
            (self@.game is None ==> s.mask@ == Seq::<char>::empty() && s.secret@
                == Seq::<char>::empty() && s.guess_count == 0 && s.outcome
                == RoundOutcome::InProgress),
    {
        match &self.game {
            Option::Some(g) => Snapshot {
                screen: self.screen,
                secret_visible: self.debug,
                in_round: true,
                mask: g.mask_string(),
                secret: g.secret_string(),
                guess_count: g.guess_count(),
                max_guesses: g.max_guesses(),
                outcome: g.outcome(),
            },
            Option::None => {
                let empty: Vec<char> = Vec::new();
                let empty2: Vec<char> = Vec::new();
                Snapshot {
                    screen: self.screen,
                    secret_visible: self.debug,
                    in_round: false,
                    mask: chars_to_string(&empty),
                    secret: chars_to_string(&empty2),
                    guess_count: 0,
                    max_guesses: self.max_guesses,
                    outcome: RoundOutcome::InProgress,
                }
            },
        }
    }
}

} // verus!
