use hangman::letters::{check_valid_word, fold_char, is_vowel, normalize_guess, BLANK};

fn chars(s: &str) -> Vec<char> {
    s.chars().collect()
}

fn string_of(v: &[char]) -> String {
    v.iter().collect()
}

#[test]
fn blank_is_underscore() {
    assert_eq!(BLANK, '_');
}

#[test]
fn vowels_are_case_insensitive() {
    for c in "aeiouAEIOU".chars() {
        assert!(is_vowel(c), "{c} is a vowel");
    }
    for c in "bcdfgXYZ_0 ".chars() {
        assert!(!is_vowel(c), "{c} is no vowel");
    }
}

#[test]
fn fold_char_lowers_ascii_capitals_only() {
    assert_eq!(fold_char('A'), 'a');
    assert_eq!(fold_char('Z'), 'z');
    assert_eq!(fold_char('m'), 'm');
    assert_eq!(fold_char('7'), '7');
    assert_eq!(fold_char('_'), '_');
}

#[test]
fn valid_words_are_nonempty_lowercase_ascii() {
    assert!(check_valid_word(&chars("cat")));
    assert!(check_valid_word(&chars("a")));
    assert!(!check_valid_word(&chars("")));
    assert!(!check_valid_word(&chars("Cat")));
    assert!(!check_valid_word(&chars("ca t")));
    assert!(!check_valid_word(&chars("cat1")));
}

#[test]
fn normalize_trims_and_lowers() {
    assert_eq!(string_of(&normalize_guess(&chars("  CaT \t"))), "cat");
    assert_eq!(string_of(&normalize_guess(&chars("   "))), "");
    assert_eq!(string_of(&normalize_guess(&chars("a b"))), "a b");
    assert_eq!(string_of(&normalize_guess(&chars(""))), "");
}
