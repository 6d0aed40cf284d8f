use hangman::game::{GameState, RoundOutcome};

fn chars(s: &str) -> Vec<char> {
    s.chars().collect()
}

fn start(word: &str) -> GameState {
    GameState::start_round(chars(word), 7, 3, 0).expect("valid word must start a round")
}

#[test]
fn start_round_accepts_only_valid_words() {
    assert!(GameState::start_round(chars("cat"), 7, 3, 0).is_some());
    assert!(GameState::start_round(chars(""), 7, 3, 0).is_none());
    assert!(GameState::start_round(chars("abc1"), 7, 3, 0).is_none());
    assert!(GameState::start_round(chars("Cat"), 7, 3, 0).is_none());
    assert!(GameState::start_round(chars("a b"), 7, 3, 0).is_none());
    assert!(GameState::start_round(chars("cat"), 0, 3, 0).is_none());
    assert!(GameState::start_round(chars("cat"), 7, 0, 0).is_none());
}

#[test]
fn start_round_fresh_state() {
    let g = start("house");
    assert_eq!(g.guess_count(), 0);
    assert_eq!(g.max_guesses(), 7);
    assert_eq!(g.outcome(), RoundOutcome::InProgress);
    assert_eq!(g.secret_string(), "house");
    assert_eq!(g.mask_string().len(), 5);
    assert_ne!(g.mask_string(), "house");
}

#[test]
fn win_detection_on_last_letter() {
    // secret "cat": the initial mask is always "___" (one vowel, so it is
    // hidden, and both consonants are hidden)
    let mut g = start("cat");
    assert_eq!(g.mask_string(), "___");
    g.guess("c");
    assert_eq!(g.mask_string(), "c__");
    g.guess("t");
    assert_eq!(g.mask_string(), "c_t");
    assert_eq!(g.outcome(), RoundOutcome::InProgress);
    g.guess("a");
    assert_eq!(g.mask_string(), "cat");
    assert_eq!(g.outcome(), RoundOutcome::Won);
    assert_eq!(g.guess_count(), 0);
}

#[test]
fn wrong_letter_twice_counts_two() {
    let mut g = start("house");
    g.guess("q");
    assert_eq!(g.guess_count(), 1);
    g.guess("q");
    assert_eq!(g.guess_count(), 2);
    assert_eq!(g.outcome(), RoundOutcome::InProgress);
}

#[test]
fn loss_boundary_at_seventh_wrong_guess() {
    let mut g = start("cat");
    for (i, letter) in ["q", "w", "x", "z", "b", "d"].iter().enumerate() {
        g.guess(letter);
        assert_eq!(g.guess_count(), i + 1);
        assert_eq!(g.outcome(), RoundOutcome::InProgress);
    }
    g.guess("f");
    assert_eq!(g.guess_count(), 7);
    assert_eq!(g.outcome(), RoundOutcome::Lost);
}

#[test]
fn correct_letter_reveals_every_occurrence() {
    let mut g = start("banana");
    g.guess("n");
    let m: Vec<char> = g.mask_string().chars().collect();
    assert_eq!(m[2], 'n');
    assert_eq!(m[4], 'n');
    assert_eq!(g.guess_count(), 0);
}

#[test]
fn full_word_guess_wins_immediately() {
    let mut g = start("house");
    g.guess("q");
    g.guess("w");
    assert_eq!(g.guess_count(), 2);
    g.guess("house");
    assert_eq!(g.outcome(), RoundOutcome::Won);
    assert_eq!(g.mask_string(), "house");
    assert_eq!(g.guess_count(), 2);
}

#[test]
fn partial_credit_word_guess_costs_nothing() {
    // pick a round whose initial mask still hides the 'u', so that the wrong
    // word "horse" cannot finish it
    let mut g = (0u64..200)
        .map(|seed| GameState::start_round(chars("house"), 7, 3, seed).unwrap())
        .find(|g| g.mask_string().chars().nth(2) == Some('_'))
        .expect("some seed hides the u");
    g.guess("horse");
    assert_eq!(g.mask_string(), "ho_se");
    assert_eq!(g.guess_count(), 0);
    assert_eq!(g.outcome(), RoundOutcome::InProgress);
}

#[test]
fn all_wrong_word_guess_costs_exactly_one() {
    let mut g = start("house");
    g.guess("pizza");
    assert_eq!(g.guess_count(), 1);
    assert_eq!(g.outcome(), RoundOutcome::InProgress);
}

#[test]
fn mask_only_gains_positions() {
    let mut g = start("education");
    let mut prev: Vec<char> = g.mask_string().chars().collect();
    for raw in ["q", "e", "zzz", "cat", "d", "x", "education!", "u", "t"] {
        g.guess(raw);
        let cur: Vec<char> = g.mask_string().chars().collect();
        assert_eq!(cur.len(), prev.len());
        for i in 0..cur.len() {
            if prev[i] != '_' {
                assert_eq!(cur[i], prev[i], "revealed position must stay revealed");
            }
        }
        prev = cur;
    }
}

#[test]
fn terminal_round_is_immutable_after_win() {
    let mut g = start("cat");
    g.guess("cat");
    assert_eq!(g.outcome(), RoundOutcome::Won);
    let mask = g.mask_string();
    let count = g.guess_count();
    for raw in ["q", "a", "cat", "dog", ""] {
        g.guess(raw);
        assert_eq!(g.mask_string(), mask);
        assert_eq!(g.guess_count(), count);
        assert_eq!(g.outcome(), RoundOutcome::Won);
    }
}

#[test]
fn terminal_round_is_immutable_after_loss() {
    let mut g = start("cat");
    for letter in ["q", "w", "x", "z", "b", "d", "f"] {
        g.guess(letter);
    }
    assert_eq!(g.outcome(), RoundOutcome::Lost);
    let mask = g.mask_string();
    for raw in ["c", "a", "cat"] {
        g.guess(raw);
        assert_eq!(g.mask_string(), mask);
        assert_eq!(g.guess_count(), 7);
        assert_eq!(g.outcome(), RoundOutcome::Lost);
    }
}

#[test]
fn guesses_are_trimmed_and_lowercased() {
    let mut g = start("cat");
    g.guess(" A ");
    let m: Vec<char> = g.mask_string().chars().collect();
    assert_eq!(m[1], 'a');
    assert_eq!(g.guess_count(), 0);
    g.guess("CAT");
    assert_eq!(g.outcome(), RoundOutcome::Won);
}

#[test]
fn empty_and_whitespace_guesses_are_no_ops() {
    let mut g = start("cat");
    let mask = g.mask_string();
    g.guess("");
    g.guess("   ");
    g.guess("\t\n");
    assert_eq!(g.mask_string(), mask);
    assert_eq!(g.guess_count(), 0);
    assert_eq!(g.outcome(), RoundOutcome::InProgress);
}
