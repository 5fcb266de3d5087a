//! The closed set of scalar target types and the textual grammars used to
//! parse interpreter output into one of them.

use vstd::prelude::*;

use crate::text::str_eq;
use crate::error::PipelineError;

verus! {

/// The closed enumeration of scalar target types.  Requests outside this
/// set are rejected up front; nothing is coerced silently.
#[derive(Clone, Copy, Debug, PartialEq, Eq, Structural)]
pub enum ScalarType {
    I8,
    I16,
    I32,
    I64,
    I128,
    U8,
    U16,
    U32,
    U64,
    U128,
    Usize,
    F32,
    F64,
    Char,
    Bool,
}

/// The source-level name of a scalar type, as callers write it.
pub open spec fn scalar_name(t: ScalarType) -> Seq<char> {
    match t {
        ScalarType::I8 => "i8"@,
        ScalarType::I16 => "i16"@,
        ScalarType::I32 => "i32"@,
        ScalarType::I64 => "i64"@,
        ScalarType::I128 => "i128"@,
        ScalarType::U8 => "u8"@,
        ScalarType::U16 => "u16"@,
        ScalarType::U32 => "u32"@,
        ScalarType::U64 => "u64"@,
        ScalarType::U128 => "u128"@,
        ScalarType::Usize => "usize"@,
        ScalarType::F32 => "f32"@,
        ScalarType::F64 => "f64"@,
        ScalarType::Char => "char"@,
        ScalarType::Bool => "bool"@,
    }
}

/// True of the signed integer types.
pub open spec fn is_signed(t: ScalarType) -> bool {
    t == ScalarType::I8 || t == ScalarType::I16 || t == ScalarType::I32 || t == ScalarType::I64
        || t == ScalarType::I128
}

/// True of the unsigned integer types.
pub open spec fn is_unsigned(t: ScalarType) -> bool {
    t == ScalarType::U8 || t == ScalarType::U16 || t == ScalarType::U32 || t == ScalarType::U64
        || t == ScalarType::U128 || t == ScalarType::Usize
}

/// True of every integer type, signed or unsigned.
pub open spec fn is_integer(t: ScalarType) -> bool {
    is_signed(t) || is_unsigned(t)
}

/// True of the two floating-point types.
pub open spec fn is_float(t: ScalarType) -> bool {
    t == ScalarType::F32 || t == ScalarType::F64
}

/// The smallest value an integer type can hold.
pub open spec fn min_of(t: ScalarType) -> int {
    match t {
        ScalarType::I8 => -0x80,
        ScalarType::I16 => -0x8000,
        ScalarType::I32 => -0x8000_0000,
        ScalarType::I64 => -0x8000_0000_0000_0000,
        ScalarType::I128 => -0x8000_0000_0000_0000_0000_0000_0000_0000,
        _ => 0,
    }
}

/// The largest value an integer type can hold.
pub open spec fn max_of(t: ScalarType) -> int {
    match t {
        ScalarType::I8 => 0x7f,
        ScalarType::I16 => 0x7fff,
        ScalarType::I32 => 0x7fff_ffff,
        ScalarType::I64 => 0x7fff_ffff_ffff_ffff,
        ScalarType::I128 => 0x7fff_ffff_ffff_ffff_ffff_ffff_ffff_ffff,
        ScalarType::U8 => 0xff,
        ScalarType::U16 => 0xffff,
        ScalarType::U32 => 0xffff_ffff,
        ScalarType::U64 => 0xffff_ffff_ffff_ffff,
        ScalarType::U128 => 0xffff_ffff_ffff_ffff_ffff_ffff_ffff_ffff,
        ScalarType::Usize => usize::MAX as int,
        _ => 0,
    }
}

/// Whether `v` fits in the integer type `t`.
pub open spec fn in_range(t: ScalarType, v: int) -> bool {
    min_of(t) <= v <= max_of(t)
}

/// An ASCII decimal digit.
pub open spec fn is_digit(c: char) -> bool {
    '0' <= c && c <= '9'
}

/// The numeric value of a decimal digit.
pub open spec fn digit_val(c: char) -> nat
    recommends
        is_digit(c),
{
    (c as nat - '0' as nat) as nat
}

/// The digit with value `d`.
pub open spec fn digit_char(d: nat) -> char
    recommends
        d < 10,
{
    (('0' as u8) + (d as u8)) as char
}

/// Every character of `s` is a decimal digit.
pub open spec fn all_digits(s: Seq<char>) -> bool {
    forall|i: int| 0 <= i < s.len() ==> is_digit(s[i])
}

/// The value of a digit string, most significant digit first.
pub open spec fn digits_val(s: Seq<char>) -> nat
    recommends
        all_digits(s),
    decreases s.len(),
{
    if s.len() == 0 {
        0
    } else {
        digits_val(s.drop_last()) * 10 + digit_val(s.last())
    }
}

/// The sign-and-magnitude reading of an integer literal: an optional `+`
/// or `-` sign followed by one or more decimal digits, as in std's
/// integer grammar.  `None` when the text has any other shape.
pub open spec fn int_text(s: Seq<char>) -> Option<(bool, nat)> {
    if s.len() >= 1 && (s[0] == '+' || s[0] == '-') {
        let rest = s.subrange(1, s.len() as int);
        if rest.len() > 0 && all_digits(rest) {
            Some((s[0] == '-', digits_val(rest)))
        } else {
            None
        }
    } else if s.len() > 0 && all_digits(s) {
        Some((false, digits_val(s)))
    } else {
        None
    }
}

/// The value that parsing `s` as the integer type `t` yields: the signed
/// reading of the text when it exists, carries no minus sign for an
/// unsigned type, and fits the type's range.
pub open spec fn scalar_int_value(t: ScalarType, s: Seq<char>) -> Option<int>
    recommends
        is_integer(t),
{
    match int_text(s) {
        None => None,
        Some((neg, m)) => if neg && is_unsigned(t) {
            None
        } else {
            let v: int = if neg {
                -(m as int)
            } else {
                m as int
            };
            if in_range(t, v) {
                Some(v)
            } else {
                None
            }
        },
    }
}

/// The canonical decimal rendering of a natural number: no sign, no
/// leading zeros (except for zero itself).
pub open spec fn dec_of(n: nat) -> Seq<char>
    decreases n,
{
    if n < 10 {
        seq![digit_char(n)]
    } else {
        dec_of(n / 10) + seq![digit_char(n % 10)]
    }
}

/// The canonical decimal rendering of an integer.
pub open spec fn int_dec(v: int) -> Seq<char> {
    if v < 0 {
        seq!['-'] + dec_of((-v) as nat)
    } else {
        dec_of(v as nat)
    }
}

/// The name of a scalar type as an executable string.
pub fn scalar_name_str(t: ScalarType) -> (r: &'static str)
    ensures
        r@ == scalar_name(t),
{
    match t {
        ScalarType::I8 => "i8",
        ScalarType::I16 => "i16",
        ScalarType::I32 => "i32",
        ScalarType::I64 => "i64",
        ScalarType::I128 => "i128",
        ScalarType::U8 => "u8",
        ScalarType::U16 => "u16",
        ScalarType::U32 => "u32",
        ScalarType::U64 => "u64",
        ScalarType::U128 => "u128",
        ScalarType::Usize => "usize",
        ScalarType::F32 => "f32",
        ScalarType::F64 => "f64",
        ScalarType::Char => "char",
        ScalarType::Bool => "bool",
    }
}

/// Looks a scalar type up by its source-level name.  Every name outside
/// the closed set is rejected with `UnsupportedType`, before any process
/// is spawned.
pub fn scalar_type_from_name(name: &str) -> (r: Result<ScalarType, PipelineError>)
    ensures
        match r {
            Ok(t) => scalar_name(t) == name@,
            Err(e) => {
                &&& e == PipelineError::UnsupportedType
                &&& forall|t: ScalarType| scalar_name(t) != name@
            },
        },
{
    if str_eq(name, "i8") {
        Ok(ScalarType::I8)
    } else if str_eq(name, "i16") {
        Ok(ScalarType::I16)
    } else if str_eq(name, "i32") {
        Ok(ScalarType::I32)
    } else if str_eq(name, "i64") {
        Ok(ScalarType::I64)
    } else if str_eq(name, "i128") {
        Ok(ScalarType::I128)
    } else if str_eq(name, "u8") {
        Ok(ScalarType::U8)
    } else if str_eq(name, "u16") {
        Ok(ScalarType::U16)
    } else if str_eq(name, "u32") {
        Ok(ScalarType::U32)
    } else if str_eq(name, "u64") {
        Ok(ScalarType::U64)
    } else if str_eq(name, "u128") {
        Ok(ScalarType::U128)
    } else if str_eq(name, "usize") {
        Ok(ScalarType::Usize)
    } else if str_eq(name, "f32") {
        Ok(ScalarType::F32)
    } else if str_eq(name, "f64") {
        Ok(ScalarType::F64)
    } else if str_eq(name, "char") {
        Ok(ScalarType::Char)
    } else if str_eq(name, "bool") {
        Ok(ScalarType::Bool)
    } else {
        proof {
            assert forall|t: ScalarType| scalar_name(t) != name@ by {
                match t {
                    ScalarType::I8 => assert(scalar_name(t) == "i8"@),
                    ScalarType::I16 => assert(scalar_name(t) == "i16"@),
                    ScalarType::I32 => assert(scalar_name(t) == "i32"@),
                    ScalarType::I64 => assert(scalar_name(t) == "i64"@),
                    ScalarType::I128 => assert(scalar_name(t) == "i128"@),
                    ScalarType::U8 => assert(scalar_name(t) == "u8"@),
                    ScalarType::U16 => assert(scalar_name(t) == "u16"@),
                    ScalarType::U32 => assert(scalar_name(t) == "u32"@),
                    ScalarType::U64 => assert(scalar_name(t) == "u64"@),
                    ScalarType::U128 => assert(scalar_name(t) == "u128"@),
                    ScalarType::Usize => assert(scalar_name(t) == "usize"@),
                    ScalarType::F32 => assert(scalar_name(t) == "f32"@),
                    ScalarType::F64 => assert(scalar_name(t) == "f64"@),
                    ScalarType::Char => assert(scalar_name(t) == "char"@),
                    ScalarType::Bool => assert(scalar_name(t) == "bool"@),
                }
            }
        }
        Err(PipelineError::UnsupportedType)
    }
}

/// The single-character string for a digit value.
fn digit_str(d: u128) -> (r: &'static str)
    requires
        d < 10,
    ensures
        r@ == seq![digit_char(d as nat)],
{
    if d == 0 {
        proof { reveal_strlit("0"); assert("0"@ =~= seq![digit_char(0)]); }
        "0"
    } else if d == 1 {
        proof { reveal_strlit("1"); assert("1"@ =~= seq![digit_char(1)]); }
        "1"
    } else if d == 2 {
        proof { reveal_strlit("2"); assert("2"@ =~= seq![digit_char(2)]); }
        "2"
    } else if d == 3 {
        proof { reveal_strlit("3"); assert("3"@ =~= seq![digit_char(3)]); }
        "3"
    } else if d == 4 {
        proof { reveal_strlit("4"); assert("4"@ =~= seq![digit_char(4)]); }
        "4"
    } else if d == 5 {
        proof { reveal_strlit("5"); assert("5"@ =~= seq![digit_char(5)]); }
        "5"
    } else if d == 6 {
        proof { reveal_strlit("6"); assert("6"@ =~= seq![digit_char(6)]); }
        "6"
    } else if d == 7 {
        proof { reveal_strlit("7"); assert("7"@ =~= seq![digit_char(7)]); }
        "7"
    } else if d == 8 {
        proof { reveal_strlit("8"); assert("8"@ =~= seq![digit_char(8)]); }
        "8"
    } else {
        proof { reveal_strlit("9"); assert("9"@ =~= seq![digit_char(9)]); }
        "9"
    }
}

/// Renders a magnitude in canonical decimal.
pub fn render_magnitude(n: u128) -> (r: String)
    ensures
        r@ == dec_of(n as nat),
    decreases n,
{
    if n < 10 {
        digit_str(n).to_owned()
    } else {
        let mut r = render_magnitude(n / 10);
        r.append(digit_str(n % 10));
        r
    }
}

/// Renders a signed value in canonical decimal.
pub fn render_int(neg: bool, m: u128) -> (r: String)
    ensures
        r@ == int_dec(if neg { -(m as int) } else { m as int }),
{
    if neg && m > 0 {
        let mut r = "-".to_owned();
        r.append(render_magnitude(m).as_str());
        proof {
            reveal_strlit("-");
            assert(r@ =~= seq!['-'] + dec_of(m as nat));
        }
        r
    } else {
        render_magnitude(m)
    }
}

/// A digit-string prefix never exceeds the whole string's value.
proof fn lemma_digits_val_prefix(s: Seq<char>, i: int)
    requires
        0 <= i <= s.len(),
        all_digits(s),
    ensures
        digits_val(s.subrange(0, i)) <= digits_val(s),
    decreases s.len() - i,
{
    if i < s.len() {
        let t = s.subrange(0, i + 1);
        assert(t.drop_last() =~= s.subrange(0, i));
        assert(digits_val(s.subrange(0, i)) <= digits_val(t));
        lemma_digits_val_prefix(s, i + 1);
        assert(s.subrange(0, s.len() as int) =~= s);
    } else {
        assert(s.subrange(0, i) =~= s);
    }
}

/// Reads the digit run `chars[from..to]` as a magnitude.  `None` when the
/// run is empty, holds a non-digit, or overflows the widest magnitude.
fn parse_digits(chars: &Vec<char>, from: usize, to: usize) -> (r: Option<u128>)
    requires
        from <= to <= chars@.len(),
    ensures
        ({
            let s = chars@.subrange(from as int, to as int);
            match r {
                Some(m) => s.len() > 0 && all_digits(s) && m as nat == digits_val(s),
                None => !(s.len() > 0 && all_digits(s) && digits_val(s) <= u128::MAX),
            }
        }),
{
    let ghost s = chars@.subrange(from as int, to as int);
    if from == to {
        return None;
    }
    let mut acc: u128 = 0;
    let mut i: usize = from;
    while i < to
        invariant
            from <= i <= to <= chars@.len(),
            s == chars@.subrange(from as int, to as int),
            all_digits(chars@.subrange(from as int, i as int)),
            acc as nat == digits_val(chars@.subrange(from as int, i as int)),
        decreases to - i,
    {
        let c = chars[i];
        if !(c >= '0' && c <= '9') {
            proof {
                assert(s[i - from] == chars@[i as int]);
                assert(!all_digits(s));
            }
            return None;
        }
        let d: u128 = (c as u32 - 48) as u128;
        proof {
            assert(d == digit_val(c));
        }
        let ghost pre = chars@.subrange(from as int, i as int);
        let ghost ext = chars@.subrange(from as int, i + 1);
        proof {
            assert(ext.drop_last() =~= pre);
            assert(ext.last() == chars@[i as int]);
            assert(digits_val(ext) == digits_val(pre) * 10 + d);
        }
        if acc > u128::MAX / 10 || 10 * acc > u128::MAX - d {
            proof {
                assert(digits_val(ext) > u128::MAX);
                if all_digits(s) {
                    assert(ext =~= s.subrange(0, i + 1 - from));
                    lemma_digits_val_prefix(s, i + 1 - from);
                }
            }
            return None;
        }
        acc = 10 * acc + d;
        i = i + 1;
    }
    proof {
        assert(chars@.subrange(from as int, i as int) =~= s);
    }
    Some(acc)
}

/// Reads a whole integer literal in sign-and-magnitude form, per
/// `int_text`.  `None` also covers a magnitude beyond the widest type.
pub fn parse_int_text(chars: &Vec<char>) -> (r: Option<(bool, u128)>)
    ensures
        match r {
            Some(p) => int_text(chars@) == Some((p.0, p.1 as nat)),
            None => match int_text(chars@) {
                None => true,
                Some(p) => p.1 > u128::MAX,
            },
        },
{
    let n = chars.len();
    if n >= 1 && (chars[0] == '+' || chars[0] == '-') {
        let neg = chars[0] == '-';
        match parse_digits(chars, 1, n) {
            Some(m) => Some((neg, m)),
            None => None,
        }
    } else {
        match parse_digits(chars, 0, n) {
            Some(m) => {
                proof {
                    assert(chars@.subrange(0, n as int) =~= chars@);
                }
                Some((false, m))
            },
            None => {
                proof {
                    assert(chars@.subrange(0, n as int) =~= chars@);
                }
                None
            },
        }
    }
}

/// Whether the signed magnitude fits the integer type `t`.
pub fn int_fits(t: ScalarType, neg: bool, m: u128) -> (r: bool)
    requires
        is_integer(t),
        !(neg && is_unsigned(t)),
    ensures
        r == in_range(t, if neg { -(m as int) } else { m as int }),
{
    match t {
        ScalarType::I8 => if neg { m <= 0x80 } else { m <= 0x7f },
        ScalarType::I16 => if neg { m <= 0x8000 } else { m <= 0x7fff },
        ScalarType::I32 => if neg { m <= 0x8000_0000 } else { m <= 0x7fff_ffff },
        ScalarType::I64 => if neg {
            m <= 0x8000_0000_0000_0000
        } else {
            m <= 0x7fff_ffff_ffff_ffff
        },
        ScalarType::I128 => if neg {
            m <= 0x8000_0000_0000_0000_0000_0000_0000_0000
        } else {
            m <= 0x7fff_ffff_ffff_ffff_ffff_ffff_ffff_ffff
        },
        ScalarType::U8 => m <= 0xff,
        ScalarType::U16 => m <= 0xffff,
        ScalarType::U32 => m <= 0xffff_ffff,
        ScalarType::U64 => m <= 0xffff_ffff_ffff_ffff,
        ScalarType::U128 => true,
        ScalarType::Usize => m <= usize::MAX as u128,
        _ => false,
    }
}

/// The canonical decimal rendering of `n` is a non-empty digit string
/// whose value is `n` again.
pub proof fn lemma_dec_of_value(n: nat)
    ensures
        dec_of(n).len() >= 1,
        all_digits(dec_of(n)),
        digits_val(dec_of(n)) == n,
    decreases n,
{
    if n < 10 {
        let s = seq![digit_char(n)];
        assert(s.drop_last() =~= Seq::<char>::empty());
        assert(s.last() == digit_char(n));
        assert(digits_val(Seq::<char>::empty()) == 0);
        assert(digits_val(s) == digits_val(s.drop_last()) * 10 + digit_val(s.last()));
        assert(digit_val(digit_char(n)) == n);
    } else {
        lemma_dec_of_value(n / 10);
        let s = dec_of(n / 10) + seq![digit_char(n % 10)];
        assert(s.drop_last() =~= dec_of(n / 10));
        assert(s.last() == digit_char((n % 10) as nat));
        assert(digits_val(s) == (n / 10) * 10 + n % 10);
    }
}

/// Round trip: printing an in-range value of an integer type and parsing
/// the printed form as that type yields the value back.
pub proof fn lemma_scalar_round_trip(t: ScalarType, v: int)
    requires
        is_integer(t),
        in_range(t, v),
    ensures
        scalar_int_value(t, int_dec(v)) == Some(v),
{
    if v < 0 {
        let m = (-v) as nat;
        lemma_dec_of_value(m);
        let s = seq!['-'] + dec_of(m);
        assert(s[0] == '-');
        assert(s.subrange(1, s.len() as int) =~= dec_of(m));
        assert(int_text(s) == Some((true, m)));
    } else {
        let s = dec_of(v as nat);
        lemma_dec_of_value(v as nat);
        assert(is_digit(s[0]));
        assert(s[0] != '+' && s[0] != '-');
        assert(int_text(s) == Some((false, v as nat)));
    }
}

} // verus!
