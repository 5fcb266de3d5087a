//! The textual grammar of floating-point literals, as std's parser for
//! the two float types documents it:
//!
//! ```text
//! Float  ::= Sign? ( 'inf' | 'infinity' | 'nan' | Number )
//! Number ::= ( Digit+ | Digit+ '.' Digit* | Digit* '.' Digit+ ) Exp?
//! Exp    ::= ('e' | 'E') Sign? Digit+
//! ```
//!
//! with the three words matched case-insensitively.  Float values
//! themselves never appear here: the marshaller only recognises the
//! grammar and splices the accepted text, so everything stays in the
//! realm of characters.

use vstd::prelude::*;

use crate::scalar::{all_digits, is_digit};

verus! {

/// `c` equals the lowercase letter `l`, ignoring ASCII case.
pub open spec fn lower_eq(c: char, l: char) -> bool {
    c == l || c as u32 + 32 == l as u32
}

/// `s` spells the word `w` (given in lowercase), ignoring ASCII case.
pub open spec fn word_matches(s: Seq<char>, w: Seq<char>) -> bool {
    s.len() == w.len() && forall|i: int| 0 <= i < s.len() ==> lower_eq(s[i], w[i])
}

/// `s` is one of the special words `inf`, `infinity`, `nan`.
pub open spec fn special_float_word(s: Seq<char>) -> bool {
    ||| word_matches(s, seq!['i', 'n', 'f'])
    ||| word_matches(s, seq!['i', 'n', 'f', 'i', 'n', 'i', 't', 'y'])
    ||| word_matches(s, seq!['n', 'a', 'n'])
}

/// An exponent tail: an optional sign, then one or more digits.
pub open spec fn exp_tail_ok(s: Seq<char>) -> bool {
    let d = if s.len() >= 1 && (s[0] == '+' || s[0] == '-') {
        s.subrange(1, s.len() as int)
    } else {
        s
    };
    d.len() > 0 && all_digits(d)
}

/// `s` splits at a decimal point at `i` into two digit runs, at least one
/// of them non-empty.
pub open spec fn dot_split_ok(s: Seq<char>, i: int) -> bool {
    &&& 0 <= i < s.len()
    &&& s[i] == '.'
    &&& all_digits(s.subrange(0, i))
    &&& all_digits(s.subrange(i + 1, s.len() as int))
    &&& s.len() >= 2
}

/// A mantissa: digits, optionally with one decimal point, and at least
/// one digit somewhere.
pub open spec fn mantissa_ok(s: Seq<char>) -> bool {
    (s.len() > 0 && all_digits(s)) || (exists|i: int| dot_split_ok(s, i))
}

/// `s` splits at an exponent marker at `i` into a mantissa and an
/// exponent tail.
pub open spec fn exp_split_ok(s: Seq<char>, i: int) -> bool {
    &&& 0 <= i < s.len()
    &&& (s[i] == 'e' || s[i] == 'E')
    &&& mantissa_ok(s.subrange(0, i))
    &&& exp_tail_ok(s.subrange(i + 1, s.len() as int))
}

/// A number: a mantissa with an optional exponent part.
pub open spec fn number_ok(s: Seq<char>) -> bool {
    mantissa_ok(s) || exists|i: int| exp_split_ok(s, i)
}

/// The whole grammar: an optional sign, then a special word or a number.
pub open spec fn float_text_ok(s: Seq<char>) -> bool {
    let b = if s.len() >= 1 && (s[0] == '+' || s[0] == '-') {
        s.subrange(1, s.len() as int)
    } else {
        s
    };
    special_float_word(b) || number_ok(b)
}

/// The text actually spliced for an accepted float: the same literal with
/// a leading `+` dropped, since the host language's expression grammar
/// has no unary plus.
pub open spec fn float_render(s: Seq<char>) -> Seq<char> {
    if s.len() >= 1 && s[0] == '+' {
        s.subrange(1, s.len() as int)
    } else {
        s
    }
}

/// Every character of a mantissa is a digit or the decimal point.
proof fn lemma_mantissa_chars(s: Seq<char>, j: int)
    requires
        mantissa_ok(s),
        0 <= j < s.len(),
    ensures
        is_digit(s[j]) || s[j] == '.',
{
    if s.len() > 0 && all_digits(s) {
    } else {
        let i = choose|i: int| dot_split_ok(s, i);
        if j < i {
            assert(s.subrange(0, i)[j] == s[j]);
        } else if j > i {
            assert(s.subrange(i + 1, s.len() as int)[j - i - 1] == s[j]);
        }
    }
}

/// Checks that `chars[from..to]` is all digits.
fn digits_range(chars: &Vec<char>, from: usize, to: usize) -> (r: bool)
    requires
        from <= to <= chars@.len(),
    ensures
        r == all_digits(chars@.subrange(from as int, to as int)),
{
    let ghost s = chars@.subrange(from as int, to as int);
    let mut i: usize = from;
    while i < to
        invariant
            from <= i <= to <= chars@.len(),
            s == chars@.subrange(from as int, to as int),
            forall|j: int| 0 <= j < i - from ==> is_digit(s[j]),
        decreases to - i,
    {
        let c = chars[i];
        if !(c >= '0' && c <= '9') {
            proof {
                assert(s[i - from] == chars@[i as int]);
            }
            return false;
        }
        i = i + 1;
    }
    true
}

/// Checks an exponent tail in `chars[from..to]`.
fn exp_tail_check(chars: &Vec<char>, from: usize, to: usize) -> (r: bool)
    requires
        from <= to <= chars@.len(),
    ensures
        r == exp_tail_ok(chars@.subrange(from as int, to as int)),
{
    let ghost s = chars@.subrange(from as int, to as int);
    if from < to && (chars[from] == '+' || chars[from] == '-') {
        proof {
            assert(s.subrange(1, s.len() as int) =~= chars@.subrange(from + 1, to as int));
        }
        from + 1 < to && digits_range(chars, from + 1, to)
    } else {
        from < to && digits_range(chars, from, to)
    }
}

/// Checks a mantissa in `chars[from..to]`.
fn mantissa_check(chars: &Vec<char>, from: usize, to: usize) -> (r: bool)
    requires
        from <= to <= chars@.len(),
    ensures
        r == mantissa_ok(chars@.subrange(from as int, to as int)),
{
    let ghost s = chars@.subrange(from as int, to as int);
    // Find the first decimal point, if any.
    let mut k: usize = from;
    while k < to && chars[k] != '.'
        invariant
            from <= k <= to <= chars@.len(),
            s == chars@.subrange(from as int, to as int),
            forall|j: int| 0 <= j < k - from ==> s[j] != '.',
        decreases to - k,
    {
        k = k + 1;
    }
    if k == to {
        // No decimal point at all.
        let r = from < to && digits_range(chars, from, to);
        proof {
            assert forall|i: int| !dot_split_ok(s, i) by {
                if 0 <= i < s.len() {
                    assert(s[i] != '.');
                }
            }
        }
        r
    } else {
        proof {
            assert(s[k - from] == chars@[k as int]);
        }
        let pre_ok = digits_range(chars, from, k);
        let post_ok = digits_range(chars, k + 1, to);
        let r = pre_ok && post_ok && to - from >= 2;
        proof {
            let ki = k - from;
            assert(s.subrange(0, ki) =~= chars@.subrange(from as int, k as int));
            assert(s.subrange(ki + 1, s.len() as int) =~= chars@.subrange(k + 1, to as int));
            if r {
                assert(dot_split_ok(s, ki));
            } else {
                assert forall|i: int| !dot_split_ok(s, i) by {
                    if 0 <= i < s.len() && s[i] == '.' && i != ki {
                        // The dot at `ki` sits inside one of the digit runs.
                        if i > ki {
                            assert(s.subrange(0, i)[ki] == s[ki]);
                            assert(!is_digit('.'));
                        }
                    }
                }
                assert(!all_digits(s) || s.len() == 0) by {
                    if s.len() > 0 && all_digits(s) {
                        assert(is_digit(s[ki]));
                    }
                }
            }
        }
        r
    }
}

/// Checks a number (mantissa with optional exponent) in `chars[from..to]`.
fn number_check(chars: &Vec<char>, from: usize, to: usize) -> (r: bool)
    requires
        from <= to <= chars@.len(),
    ensures
        r == number_ok(chars@.subrange(from as int, to as int)),
{
    let ghost s = chars@.subrange(from as int, to as int);
    // Find the first exponent marker, if any.
    let mut k: usize = from;
    while k < to && chars[k] != 'e' && chars[k] != 'E'
        invariant
            from <= k <= to <= chars@.len(),
            s == chars@.subrange(from as int, to as int),
            forall|j: int| 0 <= j < k - from ==> s[j] != 'e' && s[j] != 'E',
        decreases to - k,
    {
        k = k + 1;
    }
    if k == to {
        // No exponent marker: the whole run must be a mantissa.
        let r = mantissa_check(chars, from, to);
        proof {
            assert forall|i: int| !exp_split_ok(s, i) by {
                if 0 <= i < s.len() {
                    assert(s[i] != 'e' && s[i] != 'E');
                }
            }
        }
        r
    } else {
        proof {
            assert(s[k - from] == chars@[k as int]);
        }
        let pre_ok = mantissa_check(chars, from, k);
        let post_ok = exp_tail_check(chars, k + 1, to);
        let r = pre_ok && post_ok;
        proof {
            let ki = k - from;
            assert(s.subrange(0, ki) =~= chars@.subrange(from as int, k as int));
            assert(s.subrange(ki + 1, s.len() as int) =~= chars@.subrange(k + 1, to as int));
            if r {
                assert(exp_split_ok(s, ki));
            } else {
                // The marker at `ki` rules out every other split, and a
                // bare mantissa cannot contain a marker at all.
                if mantissa_ok(s) {
                    lemma_mantissa_chars(s, ki);
                }
                assert forall|i: int| !exp_split_ok(s, i) by {
                    if 0 <= i < s.len() && (s[i] == 'e' || s[i] == 'E') && i != ki {
                        if i > ki && mantissa_ok(s.subrange(0, i)) {
                            lemma_mantissa_chars(s.subrange(0, i), ki);
                            assert(s.subrange(0, i)[ki] == s[ki]);
                        }
                    }
                }
            }
        }
        r
    }
}

/// Checks one position of a case-insensitive word.
fn lower_eq_check(c: char, lower: char, upper: char) -> (r: bool)
    requires
        lower as u32 == upper as u32 + 32,
    ensures
        r == lower_eq(c, lower),
{
    c == lower || c == upper
}

/// Checks whether `chars[from..]` spells `inf`, `infinity` or `nan`.
fn special_word_check(chars: &Vec<char>, from: usize) -> (r: bool)
    requires
        from <= chars@.len(),
    ensures
        r == special_float_word(chars@.subrange(from as int, chars@.len() as int)),
{
    let ghost s = chars@.subrange(from as int, chars@.len() as int);
    let n = chars.len();
    if n - from == 3 {
        let inf = lower_eq_check(chars[from], 'i', 'I') && lower_eq_check(
            chars[from + 1],
            'n',
            'N',
        ) && lower_eq_check(chars[from + 2], 'f', 'F');
        let nan = lower_eq_check(chars[from], 'n', 'N') && lower_eq_check(
            chars[from + 1],
            'a',
            'A',
        ) && lower_eq_check(chars[from + 2], 'n', 'N');
        proof {
            assert(s.len() == 3);
            assert(s[0] == chars@[from as int]);
            assert(s[1] == chars@[from + 1]);
            assert(s[2] == chars@[from + 2]);
            if inf {
                assert(word_matches(s, seq!['i', 'n', 'f']));
            }
            if nan {
                assert(word_matches(s, seq!['n', 'a', 'n']));
            }
        }
        inf || nan
    } else if n - from == 8 {
        let w = lower_eq_check(chars[from], 'i', 'I') && lower_eq_check(chars[from + 1], 'n', 'N')
            && lower_eq_check(chars[from + 2], 'f', 'F') && lower_eq_check(
            chars[from + 3],
            'i',
            'I',
        ) && lower_eq_check(chars[from + 4], 'n', 'N') && lower_eq_check(chars[from + 5], 'i', 'I')
            && lower_eq_check(chars[from + 6], 't', 'T') && lower_eq_check(
            chars[from + 7],
            'y',
            'Y',
        );
        proof {
            assert(s.len() == 8);
            assert forall|i: int| 0 <= i < 8 implies s[i] == chars@[from + i] by {}
            if w {
                assert(word_matches(s, seq!['i', 'n', 'f', 'i', 'n', 'i', 't', 'y']));
            }
        }
        w
    } else {
        false
    }
}

/// Checks a whole candidate float literal.
pub fn float_text_check(chars: &Vec<char>) -> (r: bool)
    ensures
        r == float_text_ok(chars@),
{
    let n = chars.len();
    let start: usize = if n >= 1 && (chars[0] == '+' || chars[0] == '-') {
        1
    } else {
        0
    };
    proof {
        if start == 1 {
            assert(chars@.subrange(1, n as int) =~= chars@.subrange(
                start as int,
                chars@.len() as int,
            ));
        } else {
            assert(chars@ =~= chars@.subrange(start as int, chars@.len() as int));
        }
    }
    special_word_check(chars, start) || number_check(chars, start, n)
}

} // verus!
