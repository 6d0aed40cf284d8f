//! The obfuscation engine: builds the initial mask of a round, in which
//! every consonant is hidden and a seeded random choice of one up to
//! `max_hidden_vowels` vowel positions is hidden as well.

use vstd::prelude::*;
use crate::letters::{
    BLANK,
    spec_is_vowel,
    is_vowel,
    spec_is_lower_alpha,
    is_valid_word,
    chars_to_string,
    str_to_chars,
};
use crate::rng::next_rand;

verus! {

/// How many of the first `n` characters of `s` are vowels.
pub open spec fn vowel_count_prefix(s: Seq<char>, n: int) -> int
    decreases n,
{
    if n <= 0 {
        0
    } else {
        vowel_count_prefix(s, n - 1) + if spec_is_vowel(s[n - 1]) {
            1int
        } else {
            0int
        }
    }
}

/// How many characters of `s` are vowels.
pub open spec fn vowel_count(s: Seq<char>) -> int {
    vowel_count_prefix(s, s.len() as int)
}

/// How many of the first `n` positions are hidden vowels: a vowel of the
/// secret whose mask position shows the blank sentinel.
pub open spec fn hidden_count_prefix(secret: Seq<char>, m: Seq<char>, n: int) -> int
    decreases n,
{
    if n <= 0 {
        0
    } else {
        hidden_count_prefix(secret, m, n - 1) + if spec_is_vowel(secret[n - 1]) && m[n - 1]
            == BLANK {
            1int
        } else {
            0int
        }
    }
}

/// How many vowel positions of the secret are hidden in the mask.
pub open spec fn hidden_vowel_count(secret: Seq<char>, m: Seq<char>) -> int {
    hidden_count_prefix(secret, m, secret.len() as int)
}

proof fn lemma_hidden_prefix_agree(secret: Seq<char>, m1: Seq<char>, m2: Seq<char>, n: int)
    requires
        forall|j: int| 0 <= j < n ==> m1[j] == m2[j],
    ensures
        hidden_count_prefix(secret, m1, n) == hidden_count_prefix(secret, m2, n),
    decreases n,
{
    if n > 0 {
        lemma_hidden_prefix_agree(secret, m1, m2, n - 1);
    }
}

proof fn lemma_hidden_prefix_pos(secret: Seq<char>, m: Seq<char>, n: int)
    requires
        hidden_count_prefix(secret, m, n) > 0,
    ensures
        exists|j: int| 0 <= j < n && spec_is_vowel(secret[j]) && m[j] == BLANK,
    decreases n,
{
    if n > 0 {
        if !(spec_is_vowel(secret[n - 1]) && m[n - 1] == BLANK) {
            lemma_hidden_prefix_pos(secret, m, n - 1);
        }
    }
}

/// Positions strictly ascend along the sequence.
pub open spec fn strictly_increasing(s: Seq<usize>) -> bool {
    forall|a: int, b: int| 0 <= a < b < s.len() ==> s[a] < s[b]
}

/// The positions of all vowels of `v`, in ascending order.
fn vowel_positions(v: &Vec<char>) -> (r: Vec<usize>)
    ensures
        strictly_increasing(r@),
        forall|a: int|
            0 <= a < r@.len() ==> (r@[a] as int) < v@.len() && spec_is_vowel(v@[r@[a] as int]),
        r@.len() == vowel_count(v@),
{
    let mut out: Vec<usize> = Vec::new();
    let mut i: usize = 0;
    while i < v.len()
        invariant
            0 <= i <= v@.len(),
            forall|a: int|
                0 <= a < out@.len() ==> (out@[a] as int) < i && spec_is_vowel(v@[out@[a] as int]),
            strictly_increasing(out@),
            out@.len() == vowel_count_prefix(v@, i as int),
        decreases v@.len() - i,
    {
        if is_vowel(v[i]) {
            out.push(i);
        }
        i = i + 1;
    }
    out
}

/// Picks `k` of the given ascending positions, without replacement, driven
/// by the seed; the picks come out in ascending order.
pub fn select_hidden(positions: &Vec<usize>, k: usize, seed: u64) -> (hide: Vec<usize>)
    requires
        k <= positions@.len(),
        strictly_increasing(positions@),
    ensures
        hide@.len() == k,
        strictly_increasing(hide@),
        forall|a: int| 0 <= a < hide@.len() ==> positions@.contains(hide@[a]),
{
    let mut out: Vec<usize> = Vec::new();
    let ghost mut idxs: Seq<int> = Seq::empty();
    let mut need: usize = k;
    let mut s: u64 = seed;
    let mut j: usize = 0;
    while j < positions.len()
        invariant
            0 <= j <= positions@.len(),
            strictly_increasing(positions@),
            out@.len() + need == k,
            need <= positions@.len() - j,
            idxs.len() == out@.len(),
            forall|a: int| 0 <= a < idxs.len() ==> 0 <= #[trigger] idxs[a] < j,
            forall|a: int| 0 <= a < idxs.len() ==> out@[a] == positions@[#[trigger] idxs[a]],
            forall|a: int, b: int| 0 <= a < b < idxs.len() ==> idxs[a] < idxs[b],
        decreases positions@.len() - j,
    {
        if need > 0 {
            s = next_rand(s);
            let remaining: usize = positions.len() - j;
            if s % (remaining as u64) < (need as u64) {
                out.push(positions[j]);
                proof {
                    idxs = idxs.push(j as int);
                }
                need = need - 1;
            }
        }
        j = j + 1;
    }
    proof {
        assert(need == 0);
        assert forall|a: int, b: int| 0 <= a < b < out@.len() implies out@[a] < out@[b] by {
            assert(idxs[a] < idxs[b]);
            assert(positions@[idxs[a]] < positions@[idxs[b]]);
        }
        assert forall|a: int| 0 <= a < out@.len() implies positions@.contains(out@[a]) by {
            assert(positions@[idxs[a]] == out@[a]);
        }
    }
    out
}

/// Builds the mask of `secret` that hides every consonant and exactly the
/// vowel positions listed in `hide`.
pub fn apply_hiding(secret: &Vec<char>, hide: &Vec<usize>) -> (m: Vec<char>)
    requires
        strictly_increasing(hide@),
        forall|a: int|
            0 <= a < hide@.len() ==> (hide@[a] as int) < secret@.len() && spec_is_vowel(
                secret@[hide@[a] as int],
            ),
    ensures
        m@.len() == secret@.len(),
        forall|i: int|
            0 <= i < secret@.len() ==> m@[i] == (if spec_is_vowel(secret@[i]) && !hide@.contains(
                i as usize,
            ) {
                secret@[i]
            } else {
                BLANK
            }),
        hidden_vowel_count(secret@, m@) == hide@.len(),
{
    let mut m: Vec<char> = Vec::new();
    let mut t: usize = 0;
    let mut i: usize = 0;
    while i < secret.len()
        invariant
            0 <= i <= secret@.len(),
            m@.len() == i,
            t <= hide@.len(),
            strictly_increasing(hide@),
            forall|a: int|
                0 <= a < hide@.len() ==> (hide@[a] as int) < secret@.len() && spec_is_vowel(
                    secret@[hide@[a] as int],
                ),
            forall|a: int| 0 <= a < t ==> (hide@[a] as int) < i,
            forall|a: int| t <= a < hide@.len() ==> (hide@[a] as int) >= i,
            forall|j: int|
                0 <= j < i ==> m@[j] == (if spec_is_vowel(secret@[j]) && !hide@.contains(j as usize) {
                    secret@[j]
                } else {
                    BLANK
                }),
            hidden_count_prefix(secret@, m@, i as int) == t,
        decreases secret@.len() - i,
    {
        let c = secret[i];
        let hit = t < hide.len() && hide[t] == i;
        proof {
            if hide@.contains(i as usize) {
                let a = choose|a: int| 0 <= a < hide@.len() && hide@[a] == i as usize;
                assert(!(a < t));
                if a > t {
                    assert(hide@[t as int] < hide@[a]);
                    assert(false);
                }
                assert(a == t);
                assert(hit);
            }
            if hit {
                assert(hide@[t as int] == i as usize);
                assert(hide@.contains(i as usize));
            }
        }
        let ghost m_before = m@;
        if is_vowel(c) && !hit {
            m.push(c);
        } else {
            m.push(BLANK);
        }
        proof {
            lemma_hidden_prefix_agree(secret@, m_before, m@, i as int);
        }
        if hit {
            t = t + 1;
        }
        i = i + 1;
    }
    proof {
        if t < hide@.len() {
            assert((hide@[t as int] as int) >= secret@.len());
            assert(false);
        }
    }
    m
}

/// The initial mask of a round: every consonant hidden, and a seeded random
/// choice of one up to `max_hidden_vowels` vowel positions hidden as well;
/// the remaining vowels show their true character.  A word without vowels
/// comes out entirely blank.  At least one position is always hidden, so the
/// mask never equals the secret.
pub fn initial_mask(secret: &Vec<char>, max_hidden_vowels: usize, seed: u64) -> (m: Vec<char>)
    requires
        is_valid_word(secret@),
        max_hidden_vowels >= 1,
    ensures
        m@.len() == secret@.len(),
        forall|i: int| 0 <= i < secret@.len() ==> (m@[i] == secret@[i] || m@[i] == BLANK),
        forall|i: int| 0 <= i < secret@.len() && !spec_is_vowel(secret@[i]) ==> m@[i] == BLANK,
        vowel_count(secret@) == 0 ==> (forall|i: int| 0 <= i < secret@.len() ==> m@[i] == BLANK),
        vowel_count(secret@) > 0 ==> 1 <= hidden_vowel_count(secret@, m@),
        vowel_count(secret@) > 0 ==> hidden_vowel_count(secret@, m@) <= max_hidden_vowels,
        vowel_count(secret@) > 0 ==> hidden_vowel_count(secret@, m@) <= vowel_count(secret@),
        m@ != secret@,
{
    let positions = vowel_positions(secret);
    if positions.len() == 0 {
        let mut m: Vec<char> = Vec::new();
        let mut i: usize = 0;
        while i < secret.len()
            invariant
                0 <= i <= secret@.len(),
                m@.len() == i,
                forall|j: int| 0 <= j < i ==> m@[j] == BLANK,
            decreases secret@.len() - i,
        {
            m.push(BLANK);
            i = i + 1;
        }
        proof {
            assert(spec_is_lower_alpha(secret@[0]));
            assert(m@[0] == BLANK);
            assert(m@ != secret@);
        }
        m
    } else {
        let bound: usize = if positions.len() < max_hidden_vowels {
            positions.len()
        } else {
            max_hidden_vowels
        };
        let s1 = next_rand(seed);
        let k: usize = 1 + (s1 % (bound as u64)) as usize;
        let hide = select_hidden(&positions, k, s1);
        let m = apply_hiding(secret, &hide);
        proof {
            lemma_hidden_prefix_pos(secret@, m@, secret@.len() as int);
            let j = choose|j: int|
                0 <= j < secret@.len() && spec_is_vowel(secret@[j]) && m@[j] == BLANK;
            assert(spec_is_lower_alpha(secret@[j]));
            assert(m@[j] != secret@[j]);
            assert(m@ != secret@);
        }
        m
    }
}

/// The mask in which every vowel is shown and every other character is
/// replaced by the given symbol.
pub open spec fn spec_base_mask(s: Seq<char>, blank: char) -> Seq<char> {
    Seq::new(s.len(), |i: int| if spec_is_vowel(s[i]) {
        s[i]
    } else {
        blank
    })
}

/// Replaces every character that is not a vowel by `replacement_symbol`.
pub fn replace_non_vowels(original: &str, replacement_symbol: char) -> (r: String)
    ensures
        r@ == spec_base_mask(original@, replacement_symbol),
{
    let chars = str_to_chars(original);
    let mut out: Vec<char> = Vec::new();
    let mut i: usize = 0;
    while i < chars.len()
        invariant
            0 <= i <= chars@.len(),
            chars@ == original@,
            out@.len() == i,
            forall|j: int|
                0 <= j < i ==> out@[j] == (if spec_is_vowel(original@[j]) {
                    original@[j]
                } else {
                    replacement_symbol
                }),
        decreases chars@.len() - i,
    {
        let c = chars[i];
        if is_vowel(c) {
            out.push(c);
        } else {
            out.push(replacement_symbol);
        }
        i = i + 1;
    }
    proof {
        assert(out@ =~= spec_base_mask(original@, replacement_symbol));
    }
    chars_to_string(&out)
}

} // verus!
