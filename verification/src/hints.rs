//! Per-letter feedback for a guess against the secret word.
//!
//! A letter in its right place is green. Among the letters that are not
//! green, a letter is yellow as long as the secret still has an occurrence of
//! it that no green and no earlier yellow has used up, and gray otherwise.
//! One position, chosen by the opponent, is shown red whatever its letter
//! is. The red position is scored like any other before it is painted over,
//! so its letter may use up an occurrence that a later position then misses.

use vstd::prelude::*;
use vstd::string::*;
use crate::words::{
    WORD_LENGTH, index_of_letter, is_letter, is_word, letter_index, word_letters,
};
use crate::text::{texts, lemma_texts_push};

verus! {

/// Feedback for one letter of a guess.
#[derive(Clone, Copy, PartialEq, Eq, Debug, Structural)]
pub enum HintType {
    /// Right letter in the right place.
    Green,
    /// The letter occurs elsewhere in the secret.
    Yellow,
    /// The opponent sabotaged this position.
    Red,
    /// The secret has no further occurrence of the letter.
    Gray,
}

/// Why no hints were computed.
#[derive(Clone, Copy, PartialEq, Eq, Debug, Structural)]
pub enum HintError {
    /// The secret is not a word of the game.
    SecretNotAWord,
    /// The guess is not a word of the game.
    GuessNotAWord,
    /// The sabotaged position lies outside the word.
    IndexOutOfRange,
}

/// Number of positions below `n` at which `s` holds `c`.
pub open spec fn occurrences(s: Seq<char>, c: char, n: int) -> int
    decreases n,
{
    if n <= 0 {
        0
    } else {
        occurrences(s, c, n - 1) + if s[n - 1] == c { 1int } else { 0int }
    }
}

/// Number of positions below `n` at which secret and guess both hold `c`.
pub open spec fn matched(secret: Seq<char>, guess: Seq<char>, c: char, n: int) -> int
    decreases n,
{
    if n <= 0 {
        0
    } else {
        matched(secret, guess, c, n - 1) + if secret[n - 1] == c && guess[n - 1] == c {
            1int
        } else {
            0int
        }
    }
}

/// Number of positions below `n` at which the secret holds `c` and the guess
/// holds another letter: the occurrences of `c` that no green uses up.
pub open spec fn unmatched(secret: Seq<char>, guess: Seq<char>, c: char, n: int) -> int
    decreases n,
{
    if n <= 0 {
        0
    } else {
        unmatched(secret, guess, c, n - 1) + if secret[n - 1] == c && guess[n - 1] != c {
            1int
        } else {
            0int
        }
    }
}

/// Number of positions below `n` at which the guess holds `c` and the secret
/// holds another letter.
pub open spec fn misplaced(secret: Seq<char>, guess: Seq<char>, c: char, n: int) -> int
    decreases n,
{
    if n <= 0 {
        0
    } else {
        misplaced(secret, guess, c, n - 1) + if guess[n - 1] == c && secret[n - 1] != c {
            1int
        } else {
            0int
        }
    }
}

/// The feedback for position `i` before any sabotage.
pub open spec fn plain_hint(secret: Seq<char>, guess: Seq<char>, i: int) -> HintType {
    let c = guess[i];
    if secret[i] == c {
        HintType::Green
    } else if misplaced(secret, guess, c, i) < unmatched(secret, guess, c, secret.len() as int) {
        HintType::Yellow
    } else {
        HintType::Gray
    }
}

/// The feedback for position `i` when position `sabotage` is sabotaged.
pub open spec fn hint_at(secret: Seq<char>, guess: Seq<char>, sabotage: int, i: int) -> HintType {
    if i == sabotage {
        HintType::Red
    } else {
        plain_hint(secret, guess, i)
    }
}

/// The feedback for a whole guess.
pub open spec fn hints_of(secret: Seq<char>, guess: Seq<char>, sabotage: int) -> Seq<HintType> {
    Seq::new(guess.len(), |i: int| hint_at(secret, guess, sabotage, i))
}

/// What `get_hints` answers: the feedback for two words and a position inside
/// them, and otherwise the first thing that is wrong.
pub open spec fn hints_answer(secret: Seq<char>, guess: Seq<char>, sabotage: int) -> Result<
    Seq<HintType>,
    HintError,
> {
    if !is_word(secret) {
        Err(HintError::SecretNotAWord)
    } else if !is_word(guess) {
        Err(HintError::GuessNotAWord)
    } else if !(0 <= sabotage < WORD_LENGTH) {
        Err(HintError::IndexOutOfRange)
    } else {
        Ok(hints_of(secret, guess, sabotage))
    }
}

/// The answer of `get_hints` as a value of the model.
pub open spec fn answer_view(r: Result<Vec<HintType>, HintError>) -> Result<
    Seq<HintType>,
    HintError,
> {
    match r {
        Ok(h) => Ok(h@),
        Err(e) => Err(e),
    }
}

/// Every occurrence of a letter in the secret is either matched by the guess
/// or left unmatched.
pub proof fn lemma_occurrences_split(secret: Seq<char>, guess: Seq<char>, c: char, n: int)
    ensures
        occurrences(secret, c, n) == matched(secret, guess, c, n) + unmatched(secret, guess, c, n),
        0 <= matched(secret, guess, c, n),
        0 <= unmatched(secret, guess, c, n),
        0 <= misplaced(secret, guess, c, n),
        n >= 0 ==> occurrences(secret, c, n) <= n,
    decreases n,
{
    if n > 0 {
        lemma_occurrences_split(secret, guess, c, n - 1);
    }
}

/// How each count grows when one more position is looked at.
proof fn lemma_counts_step(secret: Seq<char>, guess: Seq<char>, c: char, n: int)
    requires
        0 <= n,
    ensures
        occurrences(secret, c, n + 1) == occurrences(secret, c, n) + if secret[n] == c {
            1int
        } else {
            0int
        },
        matched(secret, guess, c, n + 1) == matched(secret, guess, c, n) + if secret[n] == c
            && guess[n] == c {
            1int
        } else {
            0int
        },
        misplaced(secret, guess, c, n + 1) == misplaced(secret, guess, c, n) + if guess[n] == c
            && secret[n] != c {
            1int
        } else {
            0int
        },
{
}

/// How often each letter of the alphabet occurs in a word.
fn count_letters(word: &Vec<char>) -> (counts: Vec<usize>)
    requires
        is_word(word@),
    ensures
        counts.len() == 26,
        forall|c: char|
            is_letter(c) ==> counts[letter_index(c)] == #[trigger] occurrences(
                word@,
                c,
                word.len() as int,
            ),
{
    let mut counts: Vec<usize> = vec![0usize; 26];
    let mut i: usize = 0;
    while i < word.len()
        invariant
            i <= word.len(),
            is_word(word@),
            counts.len() == 26,
            forall|c: char|
                is_letter(c) ==> counts[letter_index(c)] == #[trigger] occurrences(
                    word@,
                    c,
                    i as int,
                ),
            forall|k: int| 0 <= k < 26 ==> #[trigger] counts[k] <= i,
        decreases word.len() - i,
    {
        let id = index_of_letter(word[i]);
        let count: usize = counts[id];
        counts.set(id, count + 1);
        proof {
            assert forall|c: char| is_letter(c) implies counts[letter_index(c)]
                == #[trigger] occurrences(word@, c, i + 1) by {
                lemma_counts_step(word@, word@, c, i as int);
            }
        }
        i = i + 1;
    }
    counts
}

/// First pass: the greens. Answers the feedback with every other position
/// still gray, and for each letter the number of greens that show it.
fn mark_greens(secret: &Vec<char>, guess: &Vec<char>) -> (r: (Vec<HintType>, Vec<usize>))
    requires
        is_word(secret@),
        is_word(guess@),
    ensures
        r.0.len() == guess.len(),
        forall|j: int|
            0 <= j < guess.len() ==> #[trigger] r.0[j] == if secret[j] == guess[j] {
                HintType::Green
            } else {
                HintType::Gray
            },
        r.1.len() == 26,
        forall|c: char|
            is_letter(c) ==> r.1[letter_index(c)] == #[trigger] matched(
                secret@,
                guess@,
                c,
                guess.len() as int,
            ),
{
    let n: usize = guess.len();
    let mut res: Vec<HintType> = vec![HintType::Gray; n];
    let mut shown_counts: Vec<usize> = vec![0usize; 26];
    let mut i: usize = 0;
    while i < n
        invariant
            n == guess.len(),
            i <= n,
            is_word(secret@),
            is_word(guess@),
            res.len() == n,
            shown_counts.len() == 26,
            forall|c: char|
                is_letter(c) ==> shown_counts[letter_index(c)] == #[trigger] matched(
                    secret@,
                    guess@,
                    c,
                    i as int,
                ),
            forall|k: int| 0 <= k < 26 ==> #[trigger] shown_counts[k] <= i,
            forall|j: int|
                0 <= j < n ==> #[trigger] res[j] == if j < i && secret[j] == guess[j] {
                    HintType::Green
                } else {
                    HintType::Gray
                },
        decreases n - i,
    {
        let c: char = guess[i];
        let id = index_of_letter(c);
        if secret[i] == c {
            res.set(i, HintType::Green);
            let count: usize = shown_counts[id];
            shown_counts.set(id, count + 1);
        }
        proof {
            assert forall|d: char| is_letter(d) implies shown_counts[letter_index(d)]
                == #[trigger] matched(secret@, guess@, d, i + 1) by {
                lemma_counts_step(secret@, guess@, d, i as int);
            }
        }
        i = i + 1;
    }
    (res, shown_counts)
}

/// Computes the feedback for `input_word` against `secret_word`, with the
/// position `sabotage_index` shown red.
pub fn get_hints(secret_word: &str, input_word: &str, sabotage_index: usize) -> (r: Result<
    Vec<HintType>,
    HintError,
>)
    ensures
        answer_view(r) == hints_answer(secret_word@, input_word@, sabotage_index as int),
{
    let secret_chars = match word_letters(secret_word) {
        Some(letters) => letters,
        None => {
            return Err(HintError::SecretNotAWord);
        },
    };
    let input_chars = match word_letters(input_word) {
        Some(letters) => letters,
        None => {
            return Err(HintError::GuessNotAWord);
        },
    };
    if sabotage_index >= WORD_LENGTH as usize {
        return Err(HintError::IndexOutOfRange);
    }
    let ghost secret = secret_chars@;
    let ghost guess = input_chars@;
    let n: usize = input_chars.len();

    let letter_counts = count_letters(&secret_chars);

    // Show greens
    let (mut res, mut shown_counts) = mark_greens(&secret_chars, &input_chars);

    // Show yellows
    proof {
        assert forall|c: char| is_letter(c) implies shown_counts[letter_index(c)] == matched(
            secret,
            guess,
            c,
            n as int,
        ) + vstd::math::min(
            #[trigger] misplaced(secret, guess, c, 0),
            unmatched(secret, guess, c, n as int),
        ) by {
            lemma_occurrences_split(secret, guess, c, n as int);
        }
    }
    let mut i: usize = 0;
    while i < n
        invariant
            n == WORD_LENGTH,
            i <= n,
            secret == secret_chars@,
            guess == input_chars@,
            is_word(secret),
            is_word(guess),
            res.len() == n,
            shown_counts.len() == 26,
            letter_counts.len() == 26,
            forall|c: char|
                is_letter(c) ==> letter_counts[letter_index(c)] == #[trigger] occurrences(
                    secret,
                    c,
                    n as int,
                ),
            // Every green of the letter is counted, and every yellow given so far.
            forall|c: char|
                is_letter(c) ==> shown_counts[letter_index(c)] == matched(
                    secret,
                    guess,
                    c,
                    n as int,
                ) + vstd::math::min(
                    #[trigger] misplaced(secret, guess, c, i as int),
                    unmatched(secret, guess, c, n as int),
                ),
            forall|j: int|
                0 <= j < n ==> #[trigger] res[j] == if j < i {
                    plain_hint(secret, guess, j)
                } else if secret[j] == guess[j] {
                    HintType::Green
                } else {
                    HintType::Gray
                },
        decreases n - i,
    {
        let c: char = input_chars[i];
        let id = index_of_letter(c);
        proof {
            lemma_occurrences_split(secret, guess, c, n as int);
        }
        if secret_chars[i] != c && shown_counts[id] < letter_counts[id] {
            res.set(i, HintType::Yellow);
            let count: usize = shown_counts[id];
            shown_counts.set(id, count + 1);
        }
        proof {
            assert forall|d: char| is_letter(d) implies shown_counts[letter_index(d)] == matched(
                secret,
                guess,
                d,
                n as int,
            ) + vstd::math::min(
                #[trigger] misplaced(secret, guess, d, i + 1),
                unmatched(secret, guess, d, n as int),
            ) by {
                lemma_counts_step(secret, guess, d, i as int);
                lemma_occurrences_split(secret, guess, d, i as int);
                lemma_occurrences_split(secret, guess, d, n as int);
            }
        }
        i = i + 1;
    }

    // Show red
    res.set(sabotage_index, HintType::Red);
    assert(res@ =~= hints_of(secret, guess, sabotage_index as int));
    Ok(res)
}

/// Number of positions below `n` at which the guess holds `c` and the
/// feedback shows `colour`.
pub open spec fn shown(
    hints: Seq<HintType>,
    guess: Seq<char>,
    colour: HintType,
    c: char,
    n: int,
) -> int
    decreases n,
{
    if n <= 0 {
        0
    } else {
        shown(hints, guess, colour, c, n - 1) + if hints[n - 1] == colour && guess[n - 1] == c {
            1int
        } else {
            0int
        }
    }
}

/// The feedback has one entry per letter, exactly one of them red, at the
/// sabotaged position; every other entry is the plain feedback for its
/// position.
pub proof fn lemma_exactly_one_red(secret: Seq<char>, guess: Seq<char>, sabotage: int)
    requires
        secret.len() == guess.len(),
        0 <= sabotage < guess.len(),
    ensures
        hints_of(secret, guess, sabotage).len() == guess.len(),
        forall|i: int|
            0 <= i < guess.len() ==> (#[trigger] hints_of(secret, guess, sabotage)[i]
                == HintType::Red <==> i == sabotage),
        forall|i: int|
            0 <= i < guess.len() && i != sabotage ==> #[trigger] hints_of(
                secret,
                guess,
                sabotage,
            )[i] == plain_hint(secret, guess, i),
{
}

/// Below any position, the greens shown for a letter are at most the places
/// where secret and guess agree on it, and the yellows shown for it are at
/// most the occurrences in the secret that no green uses up.
pub proof fn lemma_shown_bounded(
    secret: Seq<char>,
    guess: Seq<char>,
    sabotage: int,
    c: char,
    n: int,
)
    requires
        secret.len() == guess.len(),
        0 <= n <= guess.len(),
    ensures
        0 <= shown(hints_of(secret, guess, sabotage), guess, HintType::Green, c, n) <= matched(
            secret,
            guess,
            c,
            n,
        ),
        0 <= shown(hints_of(secret, guess, sabotage), guess, HintType::Yellow, c, n)
            <= vstd::math::min(
            misplaced(secret, guess, c, n),
            unmatched(secret, guess, c, secret.len() as int),
        ),
    decreases n,
{
    lemma_occurrences_split(secret, guess, c, n);
    lemma_occurrences_split(secret, guess, c, secret.len() as int);
    if n > 0 {
        lemma_shown_bounded(secret, guess, sabotage, c, n - 1);
        lemma_occurrences_split(secret, guess, c, n - 1);
    }
}

/// For every letter, greens and yellows together never exceed the number of
/// times the secret holds that letter.
pub proof fn lemma_colours_within_multiplicity(
    secret: Seq<char>,
    guess: Seq<char>,
    sabotage: int,
    c: char,
)
    requires
        secret.len() == guess.len(),
    ensures
        shown(hints_of(secret, guess, sabotage), guess, HintType::Green, c, guess.len() as int)
            + shown(
            hints_of(secret, guess, sabotage),
            guess,
            HintType::Yellow,
            c,
            guess.len() as int,
        ) <= occurrences(secret, c, secret.len() as int),
{
    lemma_shown_bounded(secret, guess, sabotage, c, guess.len() as int);
    lemma_occurrences_split(secret, guess, c, secret.len() as int);
}

/// Where occurrences of a letter in the secret are left unmatched, there is
/// a position that holds one of them.
proof fn lemma_unmatched_position(secret: Seq<char>, guess: Seq<char>, c: char, n: int) -> (j: int)
    requires
        unmatched(secret, guess, c, n) > 0,
    ensures
        0 <= j < n,
        secret[j] == c,
        guess[j] != c,
    decreases n,
{
    if secret[n - 1] == c && guess[n - 1] != c {
        n - 1
    } else {
        lemma_unmatched_position(secret, guess, c, n - 1)
    }
}

/// A letter that stands in the word is counted.
proof fn lemma_occurrence_counted(word: Seq<char>, c: char, n: int, i: int)
    requires
        0 <= i < n,
        word[i] == c,
    ensures
        occurrences(word, c, n) >= 1,
    decreases n,
{
    lemma_occurrences_split(word, word, c, n - 1);
    if i < n - 1 {
        lemma_occurrence_counted(word, c, n - 1, i);
    }
}

/// The plain feedback means what the colours say. Green: the secret has the
/// same letter at the same position. Yellow: the secret has the letter at
/// another position, one where the guess has not got it right. And a letter
/// that the secret does not hold at all is gray.
pub proof fn lemma_colours_mean_what_they_say(secret: Seq<char>, guess: Seq<char>, i: int)
    requires
        secret.len() == guess.len(),
        0 <= i < guess.len(),
    ensures
        plain_hint(secret, guess, i) == HintType::Green <==> secret[i] == guess[i],
        plain_hint(secret, guess, i) == HintType::Yellow ==> exists|j: int|
            0 <= j < secret.len() && j != i && #[trigger] secret[j] == guess[i] && guess[j]
                != guess[i],
        occurrences(secret, guess[i], secret.len() as int) == 0 ==> plain_hint(secret, guess, i)
            == HintType::Gray,
        plain_hint(secret, guess, i) != HintType::Red,
{
    let c = guess[i];
    lemma_occurrences_split(secret, guess, c, secret.len() as int);
    lemma_occurrences_split(secret, guess, c, i);
    if plain_hint(secret, guess, i) == HintType::Yellow {
        let j = lemma_unmatched_position(secret, guess, c, secret.len() as int);
        assert(secret[j] == guess[i]);
    }
    if secret[i] == c {
        lemma_occurrence_counted(secret, c, secret.len() as int, i);
    }
}

/// Two answers of `get_hints` to the same question are the same answer.
pub proof fn lemma_hints_repeatable(
    secret: Seq<char>,
    guess: Seq<char>,
    sabotage: int,
    first: Result<Vec<HintType>, HintError>,
    second: Result<Vec<HintType>, HintError>,
)
    requires
        answer_view(first) == hints_answer(secret, guess, sabotage),
        answer_view(second) == hints_answer(secret, guess, sabotage),
    ensures
        answer_view(first) == answer_view(second),
        first is Ok ==> second is Ok && first->Ok_0@ == second->Ok_0@,
{
}

/// The word under which a hint goes over the wire.
pub open spec fn hint_name(h: HintType) -> Seq<char> {
    match h {
        HintType::Gray => "gray"@,
        HintType::Green => "green"@,
        HintType::Yellow => "yellow"@,
        HintType::Red => "red"@,
    }
}

/// The wire names of a sequence of hints.
pub open spec fn hint_names(hints: Seq<HintType>) -> Seq<Seq<char>> {
    Seq::new(hints.len(), |i: int| hint_name(hints[i]))
}

/// The wire name of each hint, in the same order.
pub fn get_hints_strings(hints: Vec<HintType>) -> (r: Vec<String>)
    ensures
        texts(r@) == hint_names(hints@),
{
    let mut names: Vec<String> = Vec::new();
    let mut i: usize = 0;
    while i < hints.len()
        invariant
            i <= hints.len(),
            texts(names@) == hint_names(hints@.subrange(0, i as int)),
        decreases hints.len() - i,
    {
        let name = match hints[i] {
            HintType::Gray => "gray",
            HintType::Green => "green",
            HintType::Yellow => "yellow",
            HintType::Red => "red",
        };
        let owned = String::from_str(name);
        proof {
            lemma_texts_push(names@, owned);
        }
        names.push(owned);
        i = i + 1;
    }
    names
}

} // verus!
