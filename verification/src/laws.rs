//! General guarantees of the transliteration, stated over the spec
//! functions [`phonetic`] and [`emitted`] and proved once for all inputs:
//! digit strings render one digit for one, ASCII whitespace and
//! punctuation survive in order, and the conjunct and fola patterns take
//! precedence over the plain table lookup.

use vstd::prelude::*;

use crate::scanner::{emitted, phonetic};
use crate::table::{is_ascii_punct, is_ascii_space, phoneme};
use crate::table::{BA, KA, SSA, VIRAMA, YA};

verus! {

/// Whether the scanner copies `c` through unchanged: ASCII whitespace or
/// ASCII punctuation.
pub open spec fn is_passthrough(c: char) -> bool {
    is_ascii_space(c) || is_ascii_punct(c)
}

/// The pass-through characters of `s`, kept in their original order.
pub open spec fn passthrough_of(s: Seq<char>) -> Seq<char>
    decreases s.len(),
{
    if s.len() == 0 {
        Seq::empty()
    } else if is_passthrough(s[0]) {
        seq![s[0]] + passthrough_of(s.skip(1))
    } else {
        passthrough_of(s.skip(1))
    }
}

proof fn lemma_passthrough_of_add(a: Seq<char>, b: Seq<char>)
    ensures
        passthrough_of(a + b) == passthrough_of(a) + passthrough_of(b),
    decreases a.len(),
{
    if a.len() == 0 {
        assert(a + b =~= b);
        assert(passthrough_of(a) + passthrough_of(b) =~= passthrough_of(b));
    } else {
        assert((a + b).skip(1) =~= a.skip(1) + b);
        lemma_passthrough_of_add(a.skip(1), b);
        if is_passthrough(a[0]) {
            assert(seq![a[0]] + (passthrough_of(a.skip(1)) + passthrough_of(b)) =~= (seq![a[0]]
                + passthrough_of(a.skip(1))) + passthrough_of(b));
        }
    }
}

proof fn lemma_passthrough_of_none(s: Seq<char>)
    requires
        forall|i: int| 0 <= i < s.len() ==> !is_passthrough(#[trigger] s[i]),
    ensures
        passthrough_of(s) == Seq::<char>::empty(),
    decreases s.len(),
{
    if s.len() > 0 {
        lemma_passthrough_of_none(s.skip(1));
    }
}

/// Every rendering in the phoneme table is made of lowercase letters and
/// digits alone: none of its characters is ASCII whitespace or
/// punctuation.
proof fn lemma_phoneme_no_passthrough(c: char)
    ensures
        (match phoneme(c) {
            Some(p) => forall|i: int| 0 <= i < p.len() ==> !is_passthrough(#[trigger] p[i]),
            None => true,
        }),
{
}

/// Law: ASCII whitespace and punctuation pass through unchanged and in
/// their original relative order: the pass-through characters of the
/// output are exactly the pass-through characters of the input.
pub proof fn lemma_passthrough_kept(s: Seq<char>)
    ensures
        passthrough_of(phonetic(s)) == passthrough_of(s),
    decreases s.len(),
{
    if s.len() == 0 {
    } else if s.len() >= 3 && s[0] == KA && s[1] == VIRAMA && s[2] == SSA {
        lemma_passthrough_kept(s.skip(3));
        lemma_passthrough_of_add(seq!['k', 'k', 'h'], phonetic(s.skip(3)));
        lemma_passthrough_of_none(seq!['k', 'k', 'h']);
        assert(s =~= seq![s[0], s[1], s[2]] + s.skip(3));
        lemma_passthrough_of_add(seq![s[0], s[1], s[2]], s.skip(3));
        lemma_passthrough_of_none(seq![s[0], s[1], s[2]]);
        assert(passthrough_of(phonetic(s)) =~= passthrough_of(s));
    } else if s.len() >= 2 && s[0] == VIRAMA && (s[1] == BA || s[1] == YA) {
        let head = if s[1] == BA {
            seq!['w']
        } else {
            seq!['y']
        };
        lemma_passthrough_kept(s.skip(2));
        lemma_passthrough_of_add(head, phonetic(s.skip(2)));
        lemma_passthrough_of_none(head);
        assert(s =~= seq![s[0], s[1]] + s.skip(2));
        lemma_passthrough_of_add(seq![s[0], s[1]], s.skip(2));
        lemma_passthrough_of_none(seq![s[0], s[1]]);
        assert(passthrough_of(phonetic(s)) =~= passthrough_of(s));
    } else {
        let c = s[0];
        lemma_passthrough_kept(s.skip(1));
        lemma_phoneme_no_passthrough(c);
        let p = (match phoneme(c) {
            Some(p) => p,
            None => Seq::<char>::empty(),
        });
        let tail = (if is_passthrough(c) {
            seq![c]
        } else {
            Seq::<char>::empty()
        });
        lemma_passthrough_of_none(p);
        lemma_passthrough_of_add(p, tail);
        lemma_passthrough_of_add(emitted(c), phonetic(s.skip(1)));
        if is_passthrough(c) {
            assert(seq![c].skip(1) =~= Seq::<char>::empty());
            assert(passthrough_of(tail) =~= seq![c]);
        }
        assert(passthrough_of(emitted(c)) =~= passthrough_of(tail));
        assert(passthrough_of(phonetic(s)) =~= passthrough_of(s));
    }
}

/// Whether `c` is one of the ten Bengali digit glyphs.
pub open spec fn is_bengali_digit(c: char) -> bool {
    c == '\u{09E6}' || c == '\u{09E7}' || c == '\u{09E8}' || c == '\u{09E9}' || c == '\u{09EA}'
        || c == '\u{09EB}' || c == '\u{09EC}' || c == '\u{09ED}' || c == '\u{09EE}' || c
        == '\u{09EF}'
}

/// The ASCII digit corresponding to a Bengali digit glyph.
pub open spec fn ascii_digit_for(c: char) -> char {
    if c == '\u{09E6}' {
        '0'
    } else if c == '\u{09E7}' {
        '1'
    } else if c == '\u{09E8}' {
        '2'
    } else if c == '\u{09E9}' {
        '3'
    } else if c == '\u{09EA}' {
        '4'
    } else if c == '\u{09EB}' {
        '5'
    } else if c == '\u{09EC}' {
        '6'
    } else if c == '\u{09ED}' {
        '7'
    } else if c == '\u{09EE}' {
        '8'
    } else {
        '9'
    }
}

/// Law: a string of Bengali digit glyphs renders as the corresponding
/// ASCII digits, one for one and in order, so concatenation of digit
/// strings is preserved.
pub proof fn lemma_digits_one_for_one(s: Seq<char>)
    requires
        forall|i: int| 0 <= i < s.len() ==> is_bengali_digit(#[trigger] s[i]),
    ensures
        phonetic(s).len() == s.len(),
        forall|i: int| 0 <= i < s.len() ==> phonetic(s)[i] == ascii_digit_for(#[trigger] s[i]),
    decreases s.len(),
{
    if s.len() > 0 {
        lemma_digits_one_for_one(s.skip(1));
        assert(emitted(s[0]) =~= seq![ascii_digit_for(s[0])]);
        assert(phonetic(s) == seq![ascii_digit_for(s[0])] + phonetic(s.skip(1)));
        assert forall|i: int| 0 <= i < s.len() implies phonetic(s)[i] == ascii_digit_for(
            s[i],
        ) by {
            if i > 0 {
                assert(phonetic(s)[i] == phonetic(s.skip(1))[i - 1]);
                assert(s.skip(1)[i - 1] == s[i]);
            }
        }
    }
}

/// Law: conjunct precedence. The three-character pattern
/// ka + virama + ssa at the front always renders as "kkh", whatever
/// follows; it is never split into "k" plus a remainder.
pub proof fn lemma_conjunct_kkh(rest: Seq<char>)
    ensures
        phonetic(seq![KA, VIRAMA, SSA] + rest) == seq!['k', 'k', 'h'] + phonetic(rest),
{
    let s = seq![KA, VIRAMA, SSA] + rest;
    assert(s.len() >= 3 && s[0] == KA && s[1] == VIRAMA && s[2] == SSA);
    assert(s.skip(3) =~= rest);
}

/// Law: fola precedence. Virama followed by ba at the front renders as
/// "w", whatever follows.
pub proof fn lemma_ba_fola(rest: Seq<char>)
    ensures
        phonetic(seq![VIRAMA, BA] + rest) == seq!['w'] + phonetic(rest),
{
    let s = seq![VIRAMA, BA] + rest;
    assert(s.len() >= 2 && s[0] == VIRAMA && s[1] == BA);
    assert(s.skip(2) =~= rest);
}

/// Law: fola precedence. Virama followed by ya at the front renders as
/// "y", whatever follows.
pub proof fn lemma_ya_fola(rest: Seq<char>)
    ensures
        phonetic(seq![VIRAMA, YA] + rest) == seq!['y'] + phonetic(rest),
{
    let s = seq![VIRAMA, YA] + rest;
    assert(s.len() >= 2 && s[0] == VIRAMA && s[1] == YA);
    assert(s.skip(2) =~= rest);
}

/// Law: before any character other than ba or ya, the virama contributes
/// nothing: scanning continues at that character as if the virama were
/// absent.
pub proof fn lemma_virama_otherwise_silent(c: char, rest: Seq<char>)
    requires
        c != BA,
        c != YA,
    ensures
        phonetic(seq![VIRAMA, c] + rest) == phonetic(seq![c] + rest),
{
    let s = seq![VIRAMA, c] + rest;
    assert(s.len() >= 2 && s[0] == VIRAMA && s[1] == c);
    assert(emitted(VIRAMA) =~= Seq::<char>::empty());
    assert(s.skip(1) =~= seq![c] + rest);
    assert(phonetic(s) =~= phonetic(seq![c] + rest));
}

} // verus!
