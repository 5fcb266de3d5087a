//! The literal normalizer: strips the delimiter convention from a quoted
//! literal token, yielding the literal's exact textual payload.
//!
//! Three delimiter styles are recognised, checked in priority order:
//! plain-quoted (`"..."`), raw-quoted (`r"..."`) and raw-hash-quoted
//! (`r#"..."#`).  A token in none of these styles normalizes to the empty
//! string: that silent-degradation policy is deliberate and is kept here.
//! Escape sequences inside the body are not interpreted; this is delimiter
//! stripping only.

use vstd::prelude::*;

use crate::error::PipelineError;

verus! {

/// The token starts and ends with a single double quote.
pub open spec fn plain_delim(s: Seq<char>) -> bool {
    s.len() >= 1 && s[0] == '"' && s[s.len() - 1] == '"'
}

/// The token starts with `r"` and ends with `"`.
pub open spec fn raw_delim(s: Seq<char>) -> bool {
    s.len() >= 2 && s[0] == 'r' && s[1] == '"' && s[s.len() - 1] == '"'
}

/// The token starts with `r#"` and ends with `"#`.
pub open spec fn raw_hash_delim(s: Seq<char>) -> bool {
    s.len() >= 3 && s[0] == 'r' && s[1] == '#' && s[2] == '"' && s[s.len() - 2] == '"'
        && s[s.len() - 1] == '#'
}

/// The delimiter style of a captured literal token: the first of the
/// three conventions that matches, or none of them.
#[derive(Clone, Copy, Debug, PartialEq, Eq, Structural)]
pub enum DelimiterStyle {
    Plain,
    RawQuoted,
    RawHashQuoted,
    Unrecognized,
}

/// Classifies a token's delimiter style, in priority order.
pub open spec fn style_of(s: Seq<char>) -> DelimiterStyle {
    if plain_delim(s) {
        DelimiterStyle::Plain
    } else if raw_delim(s) {
        DelimiterStyle::RawQuoted
    } else if raw_hash_delim(s) {
        DelimiterStyle::RawHashQuoted
    } else {
        DelimiterStyle::Unrecognized
    }
}

/// How many characters a style strips from the front of the token.
pub open spec fn strip_front(style: DelimiterStyle) -> nat {
    match style {
        DelimiterStyle::Plain => 1,
        DelimiterStyle::RawQuoted => 2,
        DelimiterStyle::RawHashQuoted => 3,
        DelimiterStyle::Unrecognized => 0,
    }
}

/// How many characters a style strips from the back of the token.
pub open spec fn strip_back(style: DelimiterStyle) -> nat {
    match style {
        DelimiterStyle::Plain => 1,
        DelimiterStyle::RawQuoted => 1,
        DelimiterStyle::RawHashQuoted => 2,
        DelimiterStyle::Unrecognized => 0,
    }
}

/// What normalizing a token yields.  The style fully determines how many
/// characters to strip from each end; an unrecognized style yields the
/// empty string, and a token shorter than its two delimiters together is
/// the bounds failure, `None`.
pub open spec fn normalize_spec(s: Seq<char>) -> Option<Seq<char>> {
    let style = style_of(s);
    if style == DelimiterStyle::Unrecognized {
        Some(Seq::empty())
    } else if s.len() >= strip_front(style) + strip_back(style) {
        Some(s.subrange(strip_front(style) as int, s.len() - strip_back(style)))
    } else {
        None
    }
}

/// Classifies a captured token's delimiter style.
pub fn delimiter_style(s: &str) -> (r: DelimiterStyle)
    ensures
        r == style_of(s@),
{
    let n = s.unicode_len();
    if n >= 1 && s.get_char(0) == '"' && s.get_char(n - 1) == '"' {
        DelimiterStyle::Plain
    } else if n >= 2 && s.get_char(0) == 'r' && s.get_char(1) == '"' && s.get_char(n - 1) == '"' {
        DelimiterStyle::RawQuoted
    } else if n >= 3 && s.get_char(0) == 'r' && s.get_char(1) == '#' && s.get_char(2) == '"'
        && s.get_char(n - 2) == '"' && s.get_char(n - 1) == '#' {
        DelimiterStyle::RawHashQuoted
    } else {
        DelimiterStyle::Unrecognized
    }
}

/// Strips the delimiter style from a captured literal token.
///
/// Returns the payload between the delimiters; an unrecognised style
/// yields the empty string rather than an error.  A token whose matched
/// style is wider than the token itself fails with `Bounds` instead of
/// slicing out of range.
pub fn parse_str(s: &str) -> (r: Result<String, PipelineError>)
    ensures
        match r {
            Ok(t) => normalize_spec(s@) == Some(t@),
            Err(e) => normalize_spec(s@) is None && e == PipelineError::Bounds,
        },
{
    let n = s.unicode_len();
    match delimiter_style(s) {
        DelimiterStyle::Plain => if n >= 2 {
            Ok(s.substring_char(1, n - 1).to_owned())
        } else {
            Err(PipelineError::Bounds)
        },
        DelimiterStyle::RawQuoted => if n >= 3 {
            Ok(s.substring_char(2, n - 1).to_owned())
        } else {
            Err(PipelineError::Bounds)
        },
        DelimiterStyle::RawHashQuoted => if n >= 5 {
            Ok(s.substring_char(3, n - 2).to_owned())
        } else {
            Err(PipelineError::Bounds)
        },
        DelimiterStyle::Unrecognized => Ok(String::new()),
    }
}

/// All three delimiter styles wrapping the same logical text normalize to
/// that same text.
pub proof fn lemma_delimiter_styles_agree(body: Seq<char>)
    ensures
        normalize_spec(seq!['"'] + body + seq!['"']) == Some(body),
        normalize_spec(seq!['r', '"'] + body + seq!['"']) == Some(body),
        normalize_spec(seq!['r', '#', '"'] + body + seq!['"', '#']) == Some(body),
{
    let plain = seq!['"'] + body + seq!['"'];
    assert(plain_delim(plain));
    assert(plain.subrange(1, plain.len() - 1) =~= body);

    let raw = seq!['r', '"'] + body + seq!['"'];
    assert(!plain_delim(raw));
    assert(raw_delim(raw));
    assert(raw.subrange(2, raw.len() - 1) =~= body);

    let raw_hash = seq!['r', '#', '"'] + body + seq!['"', '#'];
    assert(!plain_delim(raw_hash));
    assert(!raw_delim(raw_hash));
    assert(raw_hash_delim(raw_hash));
    assert(raw_hash.subrange(3, raw_hash.len() - 2) =~= body);
}

/// Normalization is a pure function of the token text: any two
/// normalizations of the same token come out identical.
pub proof fn lemma_normalize_deterministic(
    s: Seq<char>,
    r1: Option<Seq<char>>,
    r2: Option<Seq<char>>,
)
    requires
        r1 == normalize_spec(s),
        r2 == normalize_spec(s),
    ensures
        r1 == r2,
{
}

} // verus!
