//! The transliteration scanner: one left-to-right pass over the input's
//! characters that tries the multi-character conjunct patterns first
//! (longest match wins), then falls back to the phoneme table, passing
//! ASCII whitespace and punctuation through unchanged and dropping
//! everything the table does not know.

use vstd::prelude::*;

use crate::table::{ascii_punct, ascii_space, is_ascii_punct, is_ascii_space, letter_map, phoneme};
use crate::table::{BA, KA, SSA, VIRAMA, YA};

verus! {

/// What one character contributes to the output when no multi-character
/// rule fires at its position: its phoneme, if the table knows it,
/// followed by the character itself if it is ASCII whitespace or
/// punctuation. The two checks are independent; in practice no character
/// satisfies both, since the table holds no ASCII character.
pub open spec fn emitted(c: char) -> Seq<char> {
    (match phoneme(c) {
        Some(p) => p,
        None => Seq::empty(),
    }) + (if is_ascii_space(c) || is_ascii_punct(c) {
        seq![c]
    } else {
        Seq::empty()
    })
}

/// The full transliteration of a character sequence. At each position the
/// rules are tried in fixed order: the three-character conjunct
/// ka + virama + ssa renders "kkh"; the two-character folas
/// virama + ba and virama + ya render "w" and "y"; otherwise one
/// character is consumed and contributes [`emitted`] of itself.
pub open spec fn phonetic(s: Seq<char>) -> Seq<char>
    decreases s.len(),
{
    if s.len() == 0 {
        Seq::empty()
    } else if s.len() >= 3 && s[0] == KA && s[1] == VIRAMA && s[2] == SSA {
        seq!['k', 'k', 'h'] + phonetic(s.skip(3))
    } else if s.len() >= 2 && s[0] == VIRAMA && s[1] == BA {
        seq!['w'] + phonetic(s.skip(2))
    } else if s.len() >= 2 && s[0] == VIRAMA && s[1] == YA {
        seq!['y'] + phonetic(s.skip(2))
    } else {
        emitted(s[0]) + phonetic(s.skip(1))
    }
}

/// Relies on `String::push` from std, which vstd leaves unspecified:
/// it appends the one character `c` at the end of `s`.
#[verifier::external_body]
fn push_char(s: &mut String, c: char)
    ensures
        final(s)@ == old(s)@.push(c),
{
    s.push(c);
}

/// Converts Bengali text into its Latin phonetic counterpart: exactly the
/// sequence that [`phonetic`] assigns to the input's characters. Total
/// over all inputs; unknown characters are dropped, ASCII whitespace and
/// punctuation pass through unchanged.
pub fn convert_to_phonetic(input: &str) -> (converted: String)
    ensures
        converted@ == phonetic(input@),
{
    let n: usize = input.unicode_len();
    let mut converted = String::new();
    let mut index: usize = 0;
    proof {
        assert(input@.skip(0) =~= input@);
        assert(converted@ + phonetic(input@) =~= phonetic(input@));
    }
    while index < n
        invariant
            n == input@.len(),
            index <= n,
            phonetic(input@) == converted@ + phonetic(input@.skip(index as int)),
        decreases n - index,
    {
        let ghost rem = input@.skip(index as int);
        let c = input.get_char(index);
        proof {
            assert(rem.len() == n - index);
            assert(rem[0] == c);
        }
        // Conjunct rule: ka + virama + ssa renders "kkh".
        if c == KA && n - index >= 3 {
            let c1 = input.get_char(index + 1);
            if c1 == VIRAMA {
                let c2 = input.get_char(index + 2);
                if c2 == SSA {
                    converted.append("kkh");
                    proof {
                        reveal_strlit("kkh");
                        assert("kkh"@ =~= seq!['k', 'k', 'h']);
                        assert(rem[1] == c1 && rem[2] == c2);
                        assert(rem.skip(3) =~= input@.skip(index + 3));
                        assert(converted@ + phonetic(input@.skip(index + 3)) =~= phonetic(
                            input@,
                        ));
                    }
                    index = index + 3;
                    continue;
                }
            }
        }
        // Fola rules: virama + ba renders "w", virama + ya renders "y".
        if c == VIRAMA && n - index >= 2 {
            let c1 = input.get_char(index + 1);
            if c1 == BA {
                converted.append("w");
                proof {
                    reveal_strlit("w");
                    assert("w"@ =~= seq!['w']);
                    assert(rem[1] == c1);
                    assert(rem.skip(2) =~= input@.skip(index + 2));
                    assert(converted@ + phonetic(input@.skip(index + 2)) =~= phonetic(input@));
                }
                index = index + 2;
                continue;
            } else if c1 == YA {
                converted.append("y");
                proof {
                    reveal_strlit("y");
                    assert("y"@ =~= seq!['y']);
                    assert(rem[1] == c1);
                    assert(rem.skip(2) =~= input@.skip(index + 2));
                    assert(converted@ + phonetic(input@.skip(index + 2)) =~= phonetic(input@));
                }
                index = index + 2;
                continue;
            }
        }
        // Generic single-character step: table lookup, then pass-through.
        proof {
            assert(phonetic(rem) == emitted(c) + phonetic(rem.skip(1)));
        }
        match letter_map(c) {
            Some(p) => converted.append(p),
            None => (),
        }
        if ascii_space(c) || ascii_punct(c) {
            push_char(&mut converted, c);
        }
        proof {
            assert(rem.skip(1) =~= input@.skip(index + 1));
            assert(converted@ + phonetic(input@.skip(index + 1)) =~= phonetic(input@));
        }
        index = index + 1;
    }
    proof {
        assert(input@.skip(n as int) =~= Seq::<char>::empty());
        assert(converted@ =~= phonetic(input@));
    }
    converted
}

} // verus!
