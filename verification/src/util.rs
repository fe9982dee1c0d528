//! Join codes that can be said aloud.
//!
//! A code is made of syllables drawn at random, a vowel sound and a consonant
//! sound in turn, starting with a vowel sound, until it has at least
//! `ROOM_CODE_SIZE` characters.

use vstd::prelude::*;
use vstd::string::*;
use rand::seq::IndexedRandom;

verus! {

/// Number of characters that a join code has at least.
pub const ROOM_CODE_SIZE: usize = 8;

/// The vowel sounds.
pub open spec fn vowel_syllables() -> Seq<Seq<char>> {
    seq![
        "a"@, "e"@, "i"@, "o"@, "u"@, "y"@, "ei"@, "ou"@, "oo"@, "ee"@, "ay"@, "ea"@,
    ]
}

/// The consonant sounds.
pub open spec fn consonant_syllables() -> Seq<Seq<char>> {
    seq![
        "z"@, "r"@, "t"@, "tt"@, "tr"@, "p"@, "pr"@, "q"@, "s"@, "ss"@, "sr"@, "st"@, "sp"@, "d"@,
        "f"@, "g"@, "gs"@, "h"@, "th"@, "sh"@, "sk"@, "j"@, "k"@, "l"@, "lt"@, "lp"@, "ls"@, "ld"@,
        "pl"@, "ll"@, "m"@, "mp"@, "sm"@, "w"@, "x"@, "c"@, "ct"@, "cl"@, "ch"@, "cr"@, "ck"@, "v"@,
        "b"@, "sb"@, "mb"@, "n"@, "nt"@, "ns"@, "ng"@,
    ]
}

/// The syllables that may stand at place `i` of a code.
pub open spec fn syllables_at(i: int) -> Seq<Seq<char>> {
    if i % 2 == 0 {
        vowel_syllables()
    } else {
        consonant_syllables()
    }
}

/// The given pieces written one after the other.
pub open spec fn joined(parts: Seq<Seq<char>>) -> Seq<char>
    decreases parts.len(),
{
    if parts.len() == 0 {
        Seq::empty()
    } else {
        joined(parts.drop_last()) + parts.last()
    }
}

/// `code` is made of `parts`: vowel and consonant sounds in turn, starting
/// with a vowel sound, and only the last of them takes the code to
/// `ROOM_CODE_SIZE` characters.
pub open spec fn is_made_of(code: Seq<char>, parts: Seq<Seq<char>>) -> bool {
    &&& parts.len() > 0
    &&& joined(parts) == code
    &&& forall|i: int| 0 <= i < parts.len() ==> syllables_at(i).contains(#[trigger] parts[i])
    &&& joined(parts.drop_last()).len() < ROOM_CODE_SIZE <= code.len()
}

/// `code` is a join code as `create_random_code` makes them.
pub open spec fn is_room_code(code: Seq<char>) -> bool {
    exists|parts: Seq<Seq<char>>| is_made_of(code, parts)
}

/// The texts of a table of syllables.
pub open spec fn table_texts(table: Seq<&'static str>) -> Seq<Seq<char>> {
    Seq::new(table.len(), |i: int| table[i]@)
}

/// Every syllable has one or two characters.
pub proof fn lemma_syllables_short(i: int, s: Seq<char>)
    requires
        syllables_at(i).contains(s),
    ensures
        1 <= s.len() <= 2,
{
    reveal_strlit("a");
    reveal_strlit("e");
    reveal_strlit("i");
    reveal_strlit("o");
    reveal_strlit("u");
    reveal_strlit("y");
    reveal_strlit("ei");
    reveal_strlit("ou");
    reveal_strlit("oo");
    reveal_strlit("ee");
    reveal_strlit("ay");
    reveal_strlit("ea");
    reveal_strlit("z");
    reveal_strlit("r");
    reveal_strlit("t");
    reveal_strlit("tt");
    reveal_strlit("tr");
    reveal_strlit("p");
    reveal_strlit("pr");
    reveal_strlit("q");
    reveal_strlit("s");
    reveal_strlit("ss");
    reveal_strlit("sr");
    reveal_strlit("st");
    reveal_strlit("sp");
    reveal_strlit("d");
    reveal_strlit("f");
    reveal_strlit("g");
    reveal_strlit("gs");
    reveal_strlit("h");
    reveal_strlit("th");
    reveal_strlit("sh");
    reveal_strlit("sk");
    reveal_strlit("j");
    reveal_strlit("k");
    reveal_strlit("l");
    reveal_strlit("lt");
    reveal_strlit("lp");
    reveal_strlit("ls");
    reveal_strlit("ld");
    reveal_strlit("pl");
    reveal_strlit("ll");
    reveal_strlit("m");
    reveal_strlit("mp");
    reveal_strlit("sm");
    reveal_strlit("w");
    reveal_strlit("x");
    reveal_strlit("c");
    reveal_strlit("ct");
    reveal_strlit("cl");
    reveal_strlit("ch");
    reveal_strlit("cr");
    reveal_strlit("ck");
    reveal_strlit("v");
    reveal_strlit("b");
    reveal_strlit("sb");
    reveal_strlit("mb");
    reveal_strlit("n");
    reveal_strlit("nt");
    reveal_strlit("ns");
    reveal_strlit("ng");
    let table = syllables_at(i);
    let k = choose|k: int| 0 <= k < table.len() && table[k] == s;
    assert(1 <= table[k].len() <= 2);
}

/// A join code has `ROOM_CODE_SIZE` characters or one more.
pub proof fn lemma_room_code_length(code: Seq<char>)
    requires
        is_room_code(code),
    ensures
        ROOM_CODE_SIZE <= code.len() <= ROOM_CODE_SIZE + 1,
{
    let parts = choose|parts: Seq<Seq<char>>| is_made_of(code, parts);
    lemma_syllables_short(parts.len() - 1, parts.last());
}

/// The table of vowel sounds.
fn vowel_table() -> (table: Vec<&'static str>)
    ensures
        table_texts(table@) == vowel_syllables(),
{
    vec!["a", "e", "i", "o", "u", "y", "ei", "ou", "oo", "ee", "ay", "ea"]
}

/// The table of consonant sounds.
fn consonant_table() -> (table: Vec<&'static str>)
    ensures
        table_texts(table@) == consonant_syllables(),
{
    vec![
        "z", "r", "t", "tt", "tr", "p", "pr", "q", "s", "ss", "sr", "st", "sp", "d", "f", "g", "gs",
        "h", "th", "sh", "sk", "j", "k", "l", "lt", "lp", "ls", "ld", "pl", "ll", "m", "mp", "sm",
        "w", "x", "c", "ct", "cl", "ch", "cr", "ck", "v", "b", "sb", "mb", "n", "nt", "ns", "ng",
    ]
}

/// Calls `choose` of `rand::seq::IndexedRandom` on the table, with the
/// generator of the current thread. Of a table that is not empty it hands
/// back one of the entries; which one is left open.
#[verifier::external_body]
fn choose_syllable(table: &Vec<&'static str>) -> (syllable: &'static str)
    requires
        table@.len() > 0,
    ensures
        table_texts(table@).contains(syllable@),
{
    table.choose(&mut rand::rng()).copied().unwrap_or_default()
}

/// Generates a room code that is (hopefully) pronounceable.
pub fn create_random_code() -> (code: String)
    ensures
        is_room_code(code@),
        ROOM_CODE_SIZE <= code@.len() <= ROOM_CODE_SIZE + 1,
{
    let consonants = consonant_table();
    let vowels = vowel_table();

    let mut res = String::new();
    let mut length: usize = 0;
    let ghost mut parts: Seq<Seq<char>> = Seq::empty();

    let mut vowel = true;
    while length < ROOM_CODE_SIZE
        invariant
            table_texts(vowels@) == vowel_syllables(),
            table_texts(consonants@) == consonant_syllables(),
            length == res@.len(),
            joined(parts) == res@,
            vowel == (parts.len() % 2 == 0),
            forall|i: int| 0 <= i < parts.len() ==> syllables_at(i).contains(#[trigger] parts[i]),
            parts.len() > 0 ==> joined(parts.drop_last()).len() < ROOM_CODE_SIZE,
            parts.len() == 0 ==> length == 0,
            length <= ROOM_CODE_SIZE + 1,
        decreases ROOM_CODE_SIZE + 1 - length,
    {
        proof {
            // Neither table is empty.
            assert(vowels@.len() == table_texts(vowels@).len());
            assert(consonants@.len() == table_texts(consonants@).len());
        }
        let syllable = if vowel {
            choose_syllable(&vowels)
        } else {
            choose_syllable(&consonants)
        };
        proof {
            lemma_syllables_short(parts.len() as int, syllable@);
            assert(parts.push(syllable@).drop_last() =~= parts);
            parts = parts.push(syllable@);
        }
        res.append(syllable);
        length = length + syllable.unicode_len();
        vowel = !vowel;
    }
    proof {
        assert(is_made_of(res@, parts));
        lemma_room_code_length(res@);
    }
    res
}

} // verus!
