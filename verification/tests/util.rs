use word_duel::util::{create_random_code, ROOM_CODE_SIZE};

const VOWELS: [&str; 12] = ["a", "e", "i", "o", "u", "y", "ei", "ou", "oo", "ee", "ay", "ea"];

const CONSONANTS: [&str; 49] = [
    "z", "r", "t", "tt", "tr", "p", "pr", "q", "s", "ss", "sr", "st", "sp", "d", "f", "g", "gs",
    "h", "th", "sh", "sk", "j", "k", "l", "lt", "lp", "ls", "ld", "pl", "ll", "m", "mp", "sm", "w",
    "x", "c", "ct", "cl", "ch", "cr", "ck", "v", "b", "sb", "mb", "n", "nt", "ns", "ng",
];

/// Whether `rest` can be read as syllables from the two tables in turn, the
/// last of them being the first to take the code to its full size.
fn reads_as_code(rest: &str, vowel: bool, so_far: usize) -> bool {
    if rest.is_empty() {
        return so_far >= ROOM_CODE_SIZE;
    }
    if so_far >= ROOM_CODE_SIZE {
        return false;
    }
    let table: &[&str] = if vowel { &VOWELS } else { &CONSONANTS };
    table.iter().any(|s| {
        rest.starts_with(s) && reads_as_code(&rest[s.len()..], !vowel, so_far + s.len())
    })
}

#[test]
fn room_code_size() {
    assert_eq!(ROOM_CODE_SIZE, 8);
}

#[test]
fn random_codes_have_eight_or_nine_letters() {
    for _ in 0..200 {
        let code = create_random_code();
        let n = code.chars().count();
        assert!(n == 8 || n == 9, "unexpected length of {}", code);
        assert!(code.chars().all(|c| c.is_ascii_lowercase()));
    }
}

#[test]
fn random_codes_alternate_vowel_and_consonant_sounds() {
    for _ in 0..200 {
        let code = create_random_code();
        assert!(reads_as_code(&code, true, 0), "{} is no code", code);
    }
}

#[test]
fn random_codes_differ() {
    let codes: Vec<String> = (0..50).map(|_| create_random_code()).collect();
    let first = &codes[0];
    assert!(codes.iter().any(|c| c != first));
}
