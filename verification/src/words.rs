//! Words of the game: five capital letters.

use vstd::prelude::*;
use vstd::string::*;

verus! {

/// Number of letters in every secret and every guess.
pub const WORD_LENGTH: u64 = 5;

/// Number of guesses that each player has in one match.
pub const MAX_WORD_COUNT: u64 = 6;

/// A capital letter of the Latin alphabet.
pub open spec fn is_letter(c: char) -> bool {
    'A' <= c && c <= 'Z'
}

/// Position of a capital letter in the alphabet, `A` being 0.
pub open spec fn letter_index(c: char) -> int {
    c as int - 'A' as int
}

/// A word of the game: exactly `WORD_LENGTH` capital letters.
pub open spec fn is_word(s: Seq<char>) -> bool {
    &&& s.len() == WORD_LENGTH
    &&& forall|i: int| 0 <= i < s.len() ==> is_letter(#[trigger] s[i])
}

/// The characters of a string, one by one.
pub fn chars_of(s: &str) -> (r: Vec<char>)
    ensures
        r@ == s@,
{
    let n: usize = s.unicode_len();
    let mut v: Vec<char> = Vec::new();
    let mut i: usize = 0;
    while i < n
        invariant
            n == s@.len(),
            i <= n,
            v@ == s@.subrange(0, i as int),
        decreases n - i,
    {
        v.push(s.get_char(i));
        i = i + 1;
    }
    v
}

/// Whether a sequence of characters is a word of the game.
pub fn chars_are_word(letters: &Vec<char>) -> (r: bool)
    ensures
        r == is_word(letters@),
{
    if letters.len() != WORD_LENGTH as usize {
        return false;
    }
    let mut i: usize = 0;
    while i < letters.len()
        invariant
            i <= letters.len(),
            letters.len() == WORD_LENGTH,
            forall|j: int| 0 <= j < i ==> is_letter(#[trigger] letters@[j]),
        decreases letters.len() - i,
    {
        let c: char = letters[i];
        if !('A' <= c && c <= 'Z') {
            return false;
        }
        i = i + 1;
    }
    true
}

/// The letters of a string that is a word of the game, and nothing for any
/// other string. The length is looked at first, so that a long string costs
/// no more than the counting of its characters.
pub fn word_letters(s: &str) -> (r: Option<Vec<char>>)
    ensures
        match r {
            Some(letters) => is_word(s@) && letters@ == s@,
            None => !is_word(s@),
        },
{
    if s.unicode_len() != WORD_LENGTH as usize {
        return None;
    }
    let letters = chars_of(s);
    if chars_are_word(&letters) {
        Some(letters)
    } else {
        None
    }
}

/// Whether a string is a word of the game.
pub fn check_word(s: &str) -> (r: bool)
    ensures
        r == is_word(s@),
{
    word_letters(s).is_some()
}

/// Position of a capital letter in the alphabet.
pub fn index_of_letter(c: char) -> (r: usize)
    requires
        is_letter(c),
    ensures
        r == letter_index(c),
        r < 26,
{
    (c as u8 - 'A' as u8) as usize
}

} // verus!
