use hangman::game::RoundOutcome;
use hangman::nav::{intent_allowed, next_screen, Intent, Screen};
use hangman::session::{Session, StepResult};

#[test]
fn transition_table_gates_intents() {
    let guess = || Intent::Guess(String::from("a"));
    // a new game and quitting are accepted everywhere
    for s in [Screen::MainMenu, Screen::Rules, Screen::Playing, Screen::RoundOver] {
        assert!(intent_allowed(s, &Intent::NewGame));
        assert!(intent_allowed(s, &Intent::Quit));
        assert_eq!(next_screen(s, &Intent::NewGame), Screen::Playing);
        assert_eq!(next_screen(s, &Intent::Quit), s);
    }
    // guessing and the debug toggle only during play
    assert!(intent_allowed(Screen::Playing, &guess()));
    assert!(intent_allowed(Screen::Playing, &Intent::ToggleDebug));
    for s in [Screen::MainMenu, Screen::Rules, Screen::RoundOver] {
        assert!(!intent_allowed(s, &guess()));
        assert!(!intent_allowed(s, &Intent::ToggleDebug));
        assert_eq!(next_screen(s, &guess()), s);
    }
    // the rules only from the main menu or during play
    assert!(intent_allowed(Screen::MainMenu, &Intent::ViewRules));
    assert!(intent_allowed(Screen::Playing, &Intent::ViewRules));
    assert!(!intent_allowed(Screen::Rules, &Intent::ViewRules));
    assert!(!intent_allowed(Screen::RoundOver, &Intent::ViewRules));
    assert_eq!(next_screen(Screen::MainMenu, &Intent::ViewRules), Screen::Rules);
    assert_eq!(next_screen(Screen::Playing, &Intent::ViewRules), Screen::Rules);
    // the way back to the menu only from the rules or a finished round
    assert!(intent_allowed(Screen::Rules, &Intent::ReturnToMenu));
    assert!(intent_allowed(Screen::RoundOver, &Intent::ReturnToMenu));
    assert!(!intent_allowed(Screen::MainMenu, &Intent::ReturnToMenu));
    assert!(!intent_allowed(Screen::Playing, &Intent::ReturnToMenu));
    assert_eq!(next_screen(Screen::Rules, &Intent::ReturnToMenu), Screen::MainMenu);
    assert_eq!(next_screen(Screen::RoundOver, &Intent::ReturnToMenu), Screen::MainMenu);
}

#[test]
fn session_starts_on_main_menu_without_round() {
    let s = Session::new(7, 3);
    assert_eq!(s.screen(), Screen::MainMenu);
    let snap = s.snapshot();
    assert!(!snap.in_round);
    assert!(!snap.secret_visible);
    assert_eq!(snap.mask, "");
    assert_eq!(snap.guess_count, 0);
}

#[test]
fn refused_intents_change_nothing() {
    let mut s = Session::new(7, 3);
    let r = s.handle_intent(&Intent::Guess(String::from("a")), 0);
    assert_eq!(r, StepResult::Continue);
    assert_eq!(s.screen(), Screen::MainMenu);
    assert!(!s.snapshot().in_round);
    let r = s.handle_intent(&Intent::ReturnToMenu, 0);
    assert_eq!(r, StepResult::Continue);
    assert_eq!(s.screen(), Screen::MainMenu);
    let r = s.handle_intent(&Intent::ToggleDebug, 0);
    assert_eq!(r, StepResult::Continue);
    assert!(!s.snapshot().secret_visible);
}

#[test]
fn rules_and_back() {
    let mut s = Session::new(7, 3);
    assert_eq!(s.handle_intent(&Intent::ViewRules, 0), StepResult::Continue);
    assert_eq!(s.screen(), Screen::Rules);
    assert_eq!(s.handle_intent(&Intent::ReturnToMenu, 0), StepResult::Continue);
    assert_eq!(s.screen(), Screen::MainMenu);
}

#[test]
fn quit_changes_nothing_and_reports_quit() {
    let mut s = Session::new(7, 3);
    assert_eq!(s.handle_intent(&Intent::Quit, 0), StepResult::Quit);
    assert_eq!(s.screen(), Screen::MainMenu);
}

#[test]
fn new_game_enters_playing_with_fresh_round() {
    let mut s = Session::new(7, 3);
    let r = s.handle_intent(&Intent::NewGame, 42);
    assert_eq!(r, StepResult::Continue);
    assert_eq!(s.screen(), Screen::Playing);
    let snap = s.snapshot();
    assert!(snap.in_round);
    assert_eq!(snap.guess_count, 0);
    assert_eq!(snap.max_guesses, 7);
    assert_eq!(snap.outcome, RoundOutcome::InProgress);
    assert_eq!(snap.mask.chars().count(), snap.secret.chars().count());
    assert_ne!(snap.mask, snap.secret);
    assert!(!snap.secret.is_empty());
    assert!(snap.secret.chars().all(|c| c.is_ascii_lowercase()));
    for (ms, ss) in snap.mask.chars().zip(snap.secret.chars()) {
        assert!(ms == ss || ms == '_');
    }
}

#[test]
fn debug_toggle_only_while_playing() {
    let mut s = Session::new(7, 3);
    assert_eq!(s.handle_intent(&Intent::NewGame, 1), StepResult::Continue);
    assert_eq!(s.handle_intent(&Intent::ToggleDebug, 0), StepResult::Continue);
    assert!(s.snapshot().secret_visible);
    assert_eq!(s.handle_intent(&Intent::ToggleDebug, 0), StepResult::Continue);
    assert!(!s.snapshot().secret_visible);
}

#[test]
fn guessing_the_secret_ends_the_round() {
    let mut s = Session::new(7, 3);
    assert_eq!(s.handle_intent(&Intent::NewGame, 9), StepResult::Continue);
    let secret = s.snapshot().secret;
    let r = s.handle_intent(&Intent::Guess(secret.clone()), 0);
    assert_eq!(r, StepResult::Continue);
    assert_eq!(s.screen(), Screen::RoundOver);
    let snap = s.snapshot();
    assert_eq!(snap.outcome, RoundOutcome::Won);
    assert_eq!(snap.mask, secret);
    // from the finished round, back to the menu
    assert_eq!(s.handle_intent(&Intent::ReturnToMenu, 0), StepResult::Continue);
    assert_eq!(s.screen(), Screen::MainMenu);
}

#[test]
fn wrong_guesses_count_in_session() {
    let mut s = Session::new(7, 3);
    assert_eq!(s.handle_intent(&Intent::NewGame, 5), StepResult::Continue);
    // a guess with no matching character costs one; digits never match
    let r = s.handle_intent(&Intent::Guess(String::from("0")), 0);
    assert_eq!(r, StepResult::Continue);
    assert_eq!(s.snapshot().guess_count, 1);
    let r = s.handle_intent(&Intent::Guess(String::from("0")), 0);
    assert_eq!(r, StepResult::Continue);
    assert_eq!(s.snapshot().guess_count, 2);
}

#[test]
fn new_game_supersedes_a_finished_round() {
    let mut s = Session::new(7, 3);
    assert_eq!(s.handle_intent(&Intent::NewGame, 3), StepResult::Continue);
    let secret = s.snapshot().secret;
    s.handle_intent(&Intent::Guess(secret), 0);
    assert_eq!(s.screen(), Screen::RoundOver);
    assert_eq!(s.handle_intent(&Intent::NewGame, 4), StepResult::Continue);
    assert_eq!(s.screen(), Screen::Playing);
    let snap = s.snapshot();
    assert_eq!(snap.outcome, RoundOutcome::InProgress);
    assert_eq!(snap.guess_count, 0);
}
