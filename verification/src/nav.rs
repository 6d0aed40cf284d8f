//! The navigation controller: which screen is active, and which user
//! intents are valid on which screen, as one explicit transition table.

use vstd::prelude::*;

verus! {

/// The screen the player is looking at.
#[derive(Clone, Copy, Debug, PartialEq, Eq, Structural)]
pub enum Screen {
    MainMenu,
    Rules,
    Playing,
    RoundOver,
}

/// A normalized user intent, decoupled from raw key codes.
pub enum Intent {
    NewGame,
    Guess(String),
    ViewRules,
    ReturnToMenu,
    ToggleDebug,
    Quit,
}

/// The transition table: whether an intent is accepted on a screen.
///
/// A new game and quitting are accepted everywhere; a guess and the debug
/// toggle only during play; the rules only from the main menu or during
/// play; the way back to the menu only from the rules or a finished round.
pub open spec fn spec_intent_allowed(s: Screen, i: Intent) -> bool {
    match i {
        Intent::NewGame => true,
        Intent::Guess(_) => s == Screen::Playing,
        Intent::ViewRules => s == Screen::MainMenu || s == Screen::Playing,
        Intent::ReturnToMenu => s == Screen::Rules || s == Screen::RoundOver,
        Intent::ToggleDebug => s == Screen::Playing,
        Intent::Quit => true,
    }
}

pub fn intent_allowed(s: Screen, i: &Intent) -> (r: bool)
    ensures
        r == spec_intent_allowed(s, *i),
{
    match i {
        Intent::NewGame => true,
        Intent::Guess(_) => s == Screen::Playing,
        Intent::ViewRules => s == Screen::MainMenu || s == Screen::Playing,
        Intent::ReturnToMenu => s == Screen::Rules || s == Screen::RoundOver,
        Intent::ToggleDebug => s == Screen::Playing,
        Intent::Quit => true,
    }
}

/// The screen an accepted navigation intent leads to; a refused intent, and
/// an intent that owns no navigation (a guess, the debug toggle, quitting),
/// keeps the screen.  A guess that finishes the round moves to the
/// round-over screen; that move is the session's, driven by the outcome,
/// not this table's.
pub open spec fn spec_next_screen(s: Screen, i: Intent) -> Screen {
    if !spec_intent_allowed(s, i) {
        s
    } else {
        match i {
            Intent::NewGame => Screen::Playing,
            Intent::Guess(_) => s,
            Intent::ViewRules => Screen::Rules,
            Intent::ReturnToMenu => Screen::MainMenu,
            Intent::ToggleDebug => s,
            Intent::Quit => s,
        }
    }
}

pub fn next_screen(s: Screen, i: &Intent) -> (r: Screen)
    ensures
        r == spec_next_screen(s, *i),
{
    if !intent_allowed(s, i) {
        return s;
    }
    match i {
        Intent::NewGame => Screen::Playing,
        Intent::Guess(_) => s,
        Intent::ViewRules => Screen::Rules,
        Intent::ReturnToMenu => Screen::MainMenu,
        Intent::ToggleDebug => s,
        Intent::Quit => s,
    }
}

} // verus!
