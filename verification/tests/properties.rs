//! Concrete checks of the library's stated guarantees: the empty input,
//! pass-through of ASCII whitespace and punctuation, the precedence of
//! the conjunct and fola patterns, the silent diacritics, and the table
//! lookup itself.

use dhoni::{convert_to_phonetic, letter_map};

#[test]
fn empty_input() {
    assert_eq!(convert_to_phonetic(""), "");
}

#[test]
fn digits_concatenate() {
    assert_eq!(convert_to_phonetic("\u{09EA}\u{09E8}"), "42");
    assert_eq!(convert_to_phonetic("\u{09E6}"), "0");
}

#[test]
fn passthrough_interleaved() {
    assert_eq!(convert_to_phonetic("(\u{0995}) \u{0996}!"), "(k) kh!");
    assert_eq!(convert_to_phonetic(", "), ", ");
    assert_eq!(convert_to_phonetic("\t\n"), "\t\n");
}

#[test]
fn conjunct_kkh_precedence() {
    // ka + virama + ssa is one unit, never "k" or "kx".
    assert_eq!(convert_to_phonetic("\u{0995}\u{09CD}\u{09B7}"), "kkh");
}

#[test]
fn fola_w() {
    assert_eq!(convert_to_phonetic("\u{09CD}\u{09AC}"), "w");
}

#[test]
fn fola_y() {
    assert_eq!(convert_to_phonetic("\u{09CD}\u{09AF}"), "y");
}

#[test]
fn virama_before_other_consonant_is_silent() {
    // virama + ga: the virama vanishes, the consonant keeps its phoneme.
    assert_eq!(convert_to_phonetic("\u{09CD}\u{0997}"), "g");
    // ka + virama + ta: no conjunct pattern, both consonants render.
    assert_eq!(convert_to_phonetic("\u{0995}\u{09CD}\u{09A4}"), "kt");
}

#[test]
fn virama_at_end_is_dropped() {
    assert_eq!(convert_to_phonetic("\u{09CD}"), "");
    assert_eq!(convert_to_phonetic("\u{0995}\u{09CD}"), "k");
}

#[test]
fn ka_alone_renders_k() {
    assert_eq!(convert_to_phonetic("\u{0995}"), "k");
}

#[test]
fn silent_diacritics() {
    // visarga and chandrabindu are consumed without output
    assert_eq!(convert_to_phonetic("\u{0983}"), "");
    assert_eq!(convert_to_phonetic("\u{0981}"), "");
}

#[test]
fn unmapped_characters_are_dropped() {
    // ASCII letters are neither in the table nor whitespace/punctuation
    assert_eq!(convert_to_phonetic("hello"), "");
    assert_eq!(convert_to_phonetic("ab\u{0995}cd"), "k");
    // a non-ASCII character outside the table vanishes too
    assert_eq!(convert_to_phonetic("\u{00E9}"), "");
}

#[test]
fn table_lookup() {
    assert_eq!(letter_map('\u{0995}'), Some("k"));
    assert_eq!(letter_map('\u{098B}'), Some("rri"));
    assert_eq!(letter_map('\u{0983}'), Some(""));
    assert_eq!(letter_map('\u{09E6}'), Some("0"));
    assert_eq!(letter_map('a'), None);
    // the virama itself has no table entry
    assert_eq!(letter_map('\u{09CD}'), None);
}
