//! The result marshaller: turns the interpreter's captured output text
//! into something the caller can splice.
//!
//! * `marshal_raw_string` wraps the output verbatim in the widest
//!   raw-literal delimiter pair, failing only when the output itself
//!   holds the closing sequence.
//! * `marshal_scalar` strips exactly one trailing line terminator — not
//!   interior or leading whitespace — then parses the rest as the
//!   requested scalar type and renders a type-annotated value.

use vstd::prelude::*;

use crate::error::PipelineError;
use crate::float_text::{float_render, float_text_check, float_text_ok};
use crate::scalar::{
    ScalarType, int_dec, int_fits, in_range, int_text, is_digit, is_integer, is_unsigned,
    parse_int_text, render_int, scalar_int_value, scalar_name, scalar_name_str,
};
use crate::text::{chars_of, str_eq};

verus! {

/// The output with exactly one trailing line terminator (`\n` or `\r\n`)
/// removed; anything else, leading or interior, stays.
pub open spec fn trim_spec(s: Seq<char>) -> Seq<char> {
    if s.len() >= 2 && s[s.len() - 2] == '\r' && s[s.len() - 1] == '\n' {
        s.subrange(0, s.len() - 2)
    } else if s.len() >= 1 && s[s.len() - 1] == '\n' {
        s.subrange(0, s.len() - 1)
    } else {
        s
    }
}

/// Strips exactly one trailing line terminator.
pub fn trim_line_terminator(s: &str) -> (r: &str)
    ensures
        r@ == trim_spec(s@),
{
    let n = s.unicode_len();
    if n >= 2 && s.get_char(n - 2) == '\r' && s.get_char(n - 1) == '\n' {
        s.substring_char(0, n - 2)
    } else if n >= 1 && s.get_char(n - 1) == '\n' {
        s.substring_char(0, n - 1)
    } else {
        s
    }
}

/// The output text holds the closing delimiter sequence `"#` somewhere.
pub open spec fn contains_close_delim(s: Seq<char>) -> bool {
    exists|i: int| 0 <= i && i + 1 < s.len() && #[trigger] s[i] == '"' && s[i + 1] == '#'
}

/// The widest raw-literal wrapping of a text.
pub open spec fn raw_wrap(s: Seq<char>) -> Seq<char> {
    seq!['r', '#', '"'] + s + seq!['"', '#']
}

/// Wraps the captured output verbatim as a raw string literal token.
///
/// This fails exactly when the output holds the closing sequence `"#`,
/// which no delimiter this wide can contain — a known limitation of
/// wrapping with a fixed delimiter width.
pub fn marshal_raw_string(out: &str) -> (r: Result<String, PipelineError>)
    ensures
        match r {
            Ok(t) => !contains_close_delim(out@) && t@ == raw_wrap(out@),
            Err(e) => contains_close_delim(out@) && e == PipelineError::UnparsableLiteral,
        },
{
    let chars = chars_of(out);
    let n = chars.len();
    let mut i: usize = 0;
    while i < n && i + 1 < n
        invariant
            chars@ == out@,
            n == chars@.len(),
            i <= n,
            forall|j: int| 0 <= j < i ==> !(#[trigger] out@[j] == '"' && out@[j + 1] == '#'),
        decreases n - i,
    {
        if chars[i] == '"' && chars[i + 1] == '#' {
            return Err(PipelineError::UnparsableLiteral);
        }
        i = i + 1;
    }
    let mut t = "r#\"".to_owned();
    t.append(out);
    t.append("\"#");
    proof {
        reveal_strlit("r#\"");
        reveal_strlit("\"#");
        assert(t@ =~= raw_wrap(out@));
    }
    Ok(t)
}

/// What marshalling to a scalar type yields.
///
/// The trimmed output must parse per the requested type's textual
/// grammar; the success text is the parsed value rendered back with a
/// type annotation (for a float target, the accepted literal text itself,
/// less a leading plus).  An empty trimmed output fails with the
/// no-output hint set; any other parse failure fails without it.
pub open spec fn scalar_marshal_spec(t: ScalarType, out: Seq<char>) -> Result<
    Seq<char>,
    PipelineError,
> {
    let tr = trim_spec(out);
    if tr.len() == 0 {
        Err(PipelineError::TypeConversion { target: t, no_output: true })
    } else if is_integer(t) {
        match scalar_int_value(t, tr) {
            Some(v) => Ok(int_dec(v) + " as "@ + scalar_name(t)),
            None => Err(PipelineError::TypeConversion { target: t, no_output: false }),
        }
    } else if t == ScalarType::Char {
        if tr.len() == 1 {
            Ok(tr + " as char"@)
        } else {
            Err(PipelineError::TypeConversion { target: t, no_output: false })
        }
    } else if t == ScalarType::Bool {
        if tr == "true"@ || tr == "false"@ {
            Ok(tr)
        } else {
            Err(PipelineError::TypeConversion { target: t, no_output: false })
        }
    } else {
        if float_text_ok(tr) {
            Ok(float_render(tr) + " as "@ + scalar_name(t))
        } else {
            Err(PipelineError::TypeConversion { target: t, no_output: false })
        }
    }
}

/// The wrapped token hands the captured output back exactly: normalizing
/// the raw string literal that `marshal_raw_string` builds yields the
/// output text again.
pub proof fn lemma_raw_wrap_round_trip(s: Seq<char>)
    ensures
        crate::parser::normalize_spec(raw_wrap(s)) == Some(s),
{
    let w = raw_wrap(s);
    assert(w.len() == s.len() + 5);
    assert(w[0] == 'r');
    assert(!crate::parser::plain_delim(w));
    assert(w[1] == '#');
    assert(!crate::parser::raw_delim(w));
    assert(w[2] == '"' && w[w.len() - 2] == '"' && w[w.len() - 1] == '#');
    assert(crate::parser::raw_hash_delim(w));
    assert(w.subrange(3, w.len() - 2) =~= s);
}

/// Round trip through the whole scalar path: when the evaluated code
/// deterministically prints an in-range value of an integer type (with
/// the line terminator a printing statement appends), marshalling to
/// that type succeeds and renders exactly the value that direct textual
/// parsing of the printed form gives.
pub proof fn lemma_scalar_marshal_round_trip(t: ScalarType, v: int)
    requires
        is_integer(t),
        in_range(t, v),
    ensures
        scalar_marshal_spec(t, int_dec(v) + seq!['\n']) == Ok::<Seq<char>, PipelineError>(
            int_dec(v) + " as "@ + scalar_name(t),
        ),
{
    let printed = int_dec(v) + seq!['\n'];
    if v < 0 {
        crate::scalar::lemma_dec_of_value((-v) as nat);
    } else {
        crate::scalar::lemma_dec_of_value(v as nat);
    }
    assert(printed[printed.len() - 1] == '\n');
    assert(is_digit(printed[printed.len() - 2]) || printed[printed.len() - 2] == '-');
    assert(trim_spec(printed) =~= int_dec(v));
    crate::scalar::lemma_scalar_round_trip(t, v);
}

/// Whether `t` is one of the integer types, decided at run time.
fn is_integer_type(t: ScalarType) -> (r: bool)
    ensures
        r == is_integer(t),
{
    t == ScalarType::I8 || t == ScalarType::I16 || t == ScalarType::I32 || t == ScalarType::I64
        || t == ScalarType::I128 || t == ScalarType::U8 || t == ScalarType::U16
        || t == ScalarType::U32 || t == ScalarType::U64 || t == ScalarType::U128
        || t == ScalarType::Usize
}

/// Whether `t` is one of the unsigned types, decided at run time.
fn is_unsigned_type(t: ScalarType) -> (r: bool)
    ensures
        r == is_unsigned(t),
{
    t == ScalarType::U8 || t == ScalarType::U16 || t == ScalarType::U32 || t == ScalarType::U64
        || t == ScalarType::U128 || t == ScalarType::Usize
}

/// Marshals the captured output to the scalar type `t`, per
/// `scalar_marshal_spec`.
pub fn marshal_scalar(t: ScalarType, out: &str) -> (r: Result<String, PipelineError>)
    ensures
        match r {
            Ok(s) => scalar_marshal_spec(t, out@) == Ok::<Seq<char>, PipelineError>(s@),
            Err(e) => scalar_marshal_spec(t, out@) == Err::<Seq<char>, PipelineError>(e),
        },
{
    let trimmed = trim_line_terminator(out);
    let ghost tr = trim_spec(out@);
    let n = trimmed.unicode_len();
    if n == 0 {
        return Err(PipelineError::TypeConversion { target: t, no_output: true });
    }
    if is_integer_type(t) {
        let chars = chars_of(trimmed);
        match parse_int_text(&chars) {
            Some((neg, m)) => {
                if neg && is_unsigned_type(t) {
                    Err(PipelineError::TypeConversion { target: t, no_output: false })
                } else if int_fits(t, neg, m) {
                    let ghost v: int = if neg {
                        -(m as int)
                    } else {
                        m as int
                    };
                    let mut s = render_int(neg, m);
                    s.append(" as ");
                    s.append(scalar_name_str(t));
                    proof {
                        assert(s@ =~= int_dec(v) + " as "@ + scalar_name(t));
                    }
                    Ok(s)
                } else {
                    Err(PipelineError::TypeConversion { target: t, no_output: false })
                }
            },
            None => {
                proof {
                    if let Some((neg, m)) = int_text(tr) {
                        let v: int = if neg {
                            -(m as int)
                        } else {
                            m as int
                        };
                        assert(!in_range(t, v));
                    }
                }
                Err(PipelineError::TypeConversion { target: t, no_output: false })
            },
        }
    } else if t == ScalarType::Char {
        if n == 1 {
            let mut s = trimmed.to_owned();
            s.append(" as char");
            Ok(s)
        } else {
            Err(PipelineError::TypeConversion { target: t, no_output: false })
        }
    } else if t == ScalarType::Bool {
        if str_eq(trimmed, "true") || str_eq(trimmed, "false") {
            Ok(trimmed.to_owned())
        } else {
            Err(PipelineError::TypeConversion { target: t, no_output: false })
        }
    } else {
        let chars = chars_of(trimmed);
        if float_text_check(&chars) {
            let rendered = if trimmed.get_char(0) == '+' {
                trimmed.substring_char(1, n)
            } else {
                trimmed
            };
            let mut s = rendered.to_owned();
            s.append(" as ");
            s.append(scalar_name_str(t));
            proof {
                assert(s@ =~= float_render(tr) + " as "@ + scalar_name(t));
            }
            Ok(s)
        } else {
            Err(PipelineError::TypeConversion { target: t, no_output: false })
        }
    }
}

} // verus!
