//! The phoneme table: a fixed mapping from one Bengali character (digit,
//! vowel, vowel sign, consonant, or silent diacritic) to its Latin
//! phonetic rendering, together with the ASCII character classes that the
//! scanner passes through unchanged.

use vstd::prelude::*;

verus! {

/// The consonant ka (U+0995), first letter of the "kkh" conjunct.
pub const KA: char = '\u{0995}';

/// The combining virama / hasanta (U+09CD), which joins consonants into
/// conjuncts. It has no entry in the phoneme table.
pub const VIRAMA: char = '\u{09CD}';

/// The consonant ssa (U+09B7), second letter of the "kkh" conjunct.
pub const SSA: char = '\u{09B7}';

/// The consonant ba (U+09AC), which forms the "w" fola after a virama.
pub const BA: char = '\u{09AC}';

/// The consonant ya (U+09AF), which forms the "y" fola after a virama.
pub const YA: char = '\u{09AF}';

/// The fixed phonetic rendering of a single Bengali character, or `None`
/// for a character the table does not know. The table is total over the
/// Bengali digits, independent vowels, dependent vowel signs (kars),
/// consonants, and the two silent diacritics (visarga and chandrabindu,
/// both rendered as the empty sequence). The many-to-one collapses
/// (two letters each for "i", "u", "o", "ng", "r") are intentional
/// phonetic lossiness.
pub open spec fn phoneme(c: char) -> Option<Seq<char>> {
    match c {
        // Digits
        '\u{09E6}' => Some(seq!['0']),
        '\u{09E7}' => Some(seq!['1']),
        '\u{09E8}' => Some(seq!['2']),
        '\u{09E9}' => Some(seq!['3']),
        '\u{09EA}' => Some(seq!['4']),
        '\u{09EB}' => Some(seq!['5']),
        '\u{09EC}' => Some(seq!['6']),
        '\u{09ED}' => Some(seq!['7']),
        '\u{09EE}' => Some(seq!['8']),
        '\u{09EF}' => Some(seq!['9']),
        // Independent vowels
        '\u{0985}' => Some(seq!['o']),
        '\u{0986}' => Some(seq!['a']),
        '\u{0987}' => Some(seq!['i']),
        '\u{0988}' => Some(seq!['i']),
        '\u{0989}' => Some(seq!['u']),
        '\u{098A}' => Some(seq!['u']),
        '\u{098B}' => Some(seq!['r', 'r', 'i']),
        '\u{098F}' => Some(seq!['e']),
        '\u{0990}' => Some(seq!['o', 'i']),
        '\u{0993}' => Some(seq!['o']),
        '\u{0994}' => Some(seq!['o', 'u']),
        // Dependent vowel signs (kars)
        '\u{09BE}' => Some(seq!['a']),
        '\u{09BF}' => Some(seq!['i']),
        '\u{09C0}' => Some(seq!['i']),
        '\u{09C1}' => Some(seq!['u']),
        '\u{09C2}' => Some(seq!['u']),
        '\u{09C3}' => Some(seq!['r', 'r', 'i']),
        '\u{09C7}' => Some(seq!['e']),
        '\u{09C8}' => Some(seq!['o', 'i']),
        '\u{09CB}' => Some(seq!['o']),
        '\u{09CC}' => Some(seq!['o', 'u']),
        // Consonants
        '\u{0995}' => Some(seq!['k']),
        '\u{0996}' => Some(seq!['k', 'h']),
        '\u{0997}' => Some(seq!['g']),
        '\u{0998}' => Some(seq!['g', 'h']),
        '\u{0999}' => Some(seq!['n', 'g']),
        '\u{099A}' => Some(seq!['c']),
        '\u{099B}' => Some(seq!['c', 'h']),
        '\u{099C}' => Some(seq!['j']),
        '\u{099D}' => Some(seq!['j', 'h']),
        '\u{099E}' => Some(seq!['n', 'g']),
        '\u{099F}' => Some(seq!['t']),
        '\u{09A0}' => Some(seq!['t', 'h']),
        '\u{09A1}' => Some(seq!['d']),
        '\u{09A2}' => Some(seq!['d', 'h']),
        '\u{09A3}' => Some(seq!['n']),
        '\u{09A4}' => Some(seq!['t']),
        '\u{09A5}' => Some(seq!['t', 'h']),
        '\u{09A6}' => Some(seq!['d']),
        '\u{09A7}' => Some(seq!['d', 'h']),
        '\u{09A8}' => Some(seq!['n']),
        '\u{09AA}' => Some(seq!['p']),
        '\u{09AB}' => Some(seq!['f']),
        '\u{09AC}' => Some(seq!['b']),
        '\u{09AD}' => Some(seq!['b', 'h']),
        '\u{09AE}' => Some(seq!['m']),
        '\u{09AF}' => Some(seq!['z']),
        '\u{09B0}' => Some(seq!['r']),
        '\u{09B2}' => Some(seq!['l']),
        '\u{09B6}' => Some(seq!['s']),
        '\u{09B7}' => Some(seq!['x']),
        '\u{09B8}' => Some(seq!['s']),
        '\u{09B9}' => Some(seq!['h']),
        '\u{09DC}' => Some(seq!['r']),
        '\u{09DD}' => Some(seq!['r']),
        '\u{09DF}' => Some(seq!['y']),
        '\u{09CE}' => Some(seq!['t']),
        '\u{0982}' => Some(seq!['n', 'g']),
        // Silent diacritics: visarga and chandrabindu
        '\u{0983}' => Some(Seq::empty()),
        '\u{0981}' => Some(Seq::empty()),
        _ => None,
    }
}

/// Whether `c` is one of the five ASCII whitespace characters: space,
/// horizontal tab, line feed, form feed, carriage return.
pub open spec fn is_ascii_space(c: char) -> bool {
    c == ' ' || c == '\t' || c == '\n' || c == '\u{0C}' || c == '\r'
}

/// Whether `c` is an ASCII punctuation character: one of the four runs
/// U+0021..U+002F, U+003A..U+0040, U+005B..U+0060, U+007B..U+007E.
pub open spec fn is_ascii_punct(c: char) -> bool {
    (0x21 <= c as u32 && c as u32 <= 0x2F)
    || (0x3A <= c as u32 && c as u32 <= 0x40)
    || (0x5B <= c as u32 && c as u32 <= 0x60)
    || (0x7B <= c as u32 && c as u32 <= 0x7E)
}

/// Executable test for [`is_ascii_space`].
pub fn ascii_space(c: char) -> (r: bool)
    ensures
        r == is_ascii_space(c),
{
    c == ' ' || c == '\t' || c == '\n' || c == '\u{0C}' || c == '\r'
}

/// Executable test for [`is_ascii_punct`].
pub fn ascii_punct(c: char) -> (r: bool)
    ensures
        r == is_ascii_punct(c),
{
    let u: u32 = c as u32;
    (0x21 <= u && u <= 0x2F) || (0x3A <= u && u <= 0x40) || (0x5B <= u && u <= 0x60) || (0x7B <= u
        && u <= 0x7E)
}

/// The phoneme table as an executable lookup: returns the rendering that
/// [`phoneme`] assigns to `letter`, or `None` for an unknown character.
pub fn letter_map(letter: char) -> (r: Option<&'static str>)
    ensures
        match r {
            Some(p) => phoneme(letter) == Some(p@),
            None => phoneme(letter) is None,
        },
{
    proof {
        reveal_strlit("0");
        reveal_strlit("1");
        reveal_strlit("2");
        reveal_strlit("3");
        reveal_strlit("4");
        reveal_strlit("5");
        reveal_strlit("6");
        reveal_strlit("7");
        reveal_strlit("8");
        reveal_strlit("9");
        reveal_strlit("o");
        reveal_strlit("a");
        reveal_strlit("i");
        reveal_strlit("u");
        reveal_strlit("rri");
        reveal_strlit("e");
        reveal_strlit("oi");
        reveal_strlit("ou");
        reveal_strlit("k");
        reveal_strlit("kh");
        reveal_strlit("g");
        reveal_strlit("gh");
        reveal_strlit("ng");
        reveal_strlit("c");
        reveal_strlit("ch");
        reveal_strlit("j");
        reveal_strlit("jh");
        reveal_strlit("t");
        reveal_strlit("th");
        reveal_strlit("d");
        reveal_strlit("dh");
        reveal_strlit("n");
        reveal_strlit("p");
        reveal_strlit("f");
        reveal_strlit("b");
        reveal_strlit("bh");
        reveal_strlit("m");
        reveal_strlit("z");
        reveal_strlit("r");
        reveal_strlit("l");
        reveal_strlit("s");
        reveal_strlit("x");
        reveal_strlit("h");
        reveal_strlit("y");
        reveal_strlit("");
        assert("0"@ =~= seq!['0']);
        assert("1"@ =~= seq!['1']);
        assert("2"@ =~= seq!['2']);
        assert("3"@ =~= seq!['3']);
        assert("4"@ =~= seq!['4']);
        assert("5"@ =~= seq!['5']);
        assert("6"@ =~= seq!['6']);
        assert("7"@ =~= seq!['7']);
        assert("8"@ =~= seq!['8']);
        assert("9"@ =~= seq!['9']);
        assert("o"@ =~= seq!['o']);
        assert("a"@ =~= seq!['a']);
        assert("i"@ =~= seq!['i']);
        assert("u"@ =~= seq!['u']);
        assert("rri"@ =~= seq!['r', 'r', 'i']);
        assert("e"@ =~= seq!['e']);
        assert("oi"@ =~= seq!['o', 'i']);
        assert("ou"@ =~= seq!['o', 'u']);
        assert("k"@ =~= seq!['k']);
        assert("kh"@ =~= seq!['k', 'h']);
        assert("g"@ =~= seq!['g']);
        assert("gh"@ =~= seq!['g', 'h']);
        assert("ng"@ =~= seq!['n', 'g']);
        assert("c"@ =~= seq!['c']);
        assert("ch"@ =~= seq!['c', 'h']);
        assert("j"@ =~= seq!['j']);
        assert("jh"@ =~= seq!['j', 'h']);
        assert("t"@ =~= seq!['t']);
        assert("th"@ =~= seq!['t', 'h']);
        assert("d"@ =~= seq!['d']);
        assert("dh"@ =~= seq!['d', 'h']);
        assert("n"@ =~= seq!['n']);
        assert("p"@ =~= seq!['p']);
        assert("f"@ =~= seq!['f']);
        assert("b"@ =~= seq!['b']);
        assert("bh"@ =~= seq!['b', 'h']);
        assert("m"@ =~= seq!['m']);
        assert("z"@ =~= seq!['z']);
        assert("r"@ =~= seq!['r']);
        assert("l"@ =~= seq!['l']);
        assert("s"@ =~= seq!['s']);
        assert("x"@ =~= seq!['x']);
        assert("h"@ =~= seq!['h']);
        assert("y"@ =~= seq!['y']);
        assert(""@ =~= Seq::<char>::empty());
    }
    match letter {
        // Digits
        '\u{09E6}' => Some("0"),
        '\u{09E7}' => Some("1"),
        '\u{09E8}' => Some("2"),
        '\u{09E9}' => Some("3"),
        '\u{09EA}' => Some("4"),
        '\u{09EB}' => Some("5"),
        '\u{09EC}' => Some("6"),
        '\u{09ED}' => Some("7"),
        '\u{09EE}' => Some("8"),
        '\u{09EF}' => Some("9"),
        // Independent vowels
        '\u{0985}' => Some("o"),
        '\u{0986}' => Some("a"),
        '\u{0987}' => Some("i"),
        '\u{0988}' => Some("i"),
        '\u{0989}' => Some("u"),
        '\u{098A}' => Some("u"),
        '\u{098B}' => Some("rri"),
        '\u{098F}' => Some("e"),
        '\u{0990}' => Some("oi"),
        '\u{0993}' => Some("o"),
        '\u{0994}' => Some("ou"),
        // Dependent vowel signs (kars)
        '\u{09BE}' => Some("a"),
        '\u{09BF}' => Some("i"),
        '\u{09C0}' => Some("i"),
        '\u{09C1}' => Some("u"),
        '\u{09C2}' => Some("u"),
        '\u{09C3}' => Some("rri"),
        '\u{09C7}' => Some("e"),
        '\u{09C8}' => Some("oi"),
        '\u{09CB}' => Some("o"),
        '\u{09CC}' => Some("ou"),
        // Consonants
        '\u{0995}' => Some("k"),
        '\u{0996}' => Some("kh"),
        '\u{0997}' => Some("g"),
        '\u{0998}' => Some("gh"),
        '\u{0999}' => Some("ng"),
        '\u{099A}' => Some("c"),
        '\u{099B}' => Some("ch"),
        '\u{099C}' => Some("j"),
        '\u{099D}' => Some("jh"),
        '\u{099E}' => Some("ng"),
        '\u{099F}' => Some("t"),
        '\u{09A0}' => Some("th"),
        '\u{09A1}' => Some("d"),
        '\u{09A2}' => Some("dh"),
        '\u{09A3}' => Some("n"),
        '\u{09A4}' => Some("t"),
        '\u{09A5}' => Some("th"),
        '\u{09A6}' => Some("d"),
        '\u{09A7}' => Some("dh"),
        '\u{09A8}' => Some("n"),
        '\u{09AA}' => Some("p"),
        '\u{09AB}' => Some("f"),
        '\u{09AC}' => Some("b"),
        '\u{09AD}' => Some("bh"),
        '\u{09AE}' => Some("m"),
        '\u{09AF}' => Some("z"),
        '\u{09B0}' => Some("r"),
        '\u{09B2}' => Some("l"),
        '\u{09B6}' => Some("s"),
        '\u{09B7}' => Some("x"),
        '\u{09B8}' => Some("s"),
        '\u{09B9}' => Some("h"),
        '\u{09DC}' => Some("r"),
        '\u{09DD}' => Some("r"),
        '\u{09DF}' => Some("y"),
        '\u{09CE}' => Some("t"),
        '\u{0982}' => Some("ng"),
        // Silent diacritics: visarga and chandrabindu
        '\u{0983}' => Some(""),
        '\u{0981}' => Some(""),
        _ => None,
    }
}

} // verus!
