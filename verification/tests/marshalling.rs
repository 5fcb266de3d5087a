use macro_ruby::error::PipelineError;
use macro_ruby::marshal::{marshal_raw_string, marshal_scalar, trim_line_terminator};
use macro_ruby::parser::parse_str;
use macro_ruby::scalar::{scalar_name_str, scalar_type_from_name, ScalarType};

#[test]
fn to_test() {
    // Evaluating `print 500+500` prints `1000`; marshalling that to i32
    // yields the value textual parsing gives, rendered type-annotated.
    let code = parse_str("\"print 500+500\"").unwrap();
    assert_eq!(code, "print 500+500");
    let tag = scalar_type_from_name("i32").unwrap();
    assert_eq!(tag, ScalarType::I32);
    assert_eq!(marshal_scalar(tag, "1000").unwrap(), "1000 as i32");
}

#[test]
fn raw_string_wraps_verbatim() {
    assert_eq!(marshal_raw_string("hi\n").unwrap(), "r#\"hi\n\"#");
    assert_eq!(marshal_raw_string("").unwrap(), "r#\"\"#");
    assert_eq!(marshal_raw_string("a \"quoted\" word").unwrap(), "r#\"a \"quoted\" word\"#");
}

#[test]
fn wrapped_output_normalizes_back() {
    // The raw string token hands the captured output back exactly.
    let token = marshal_raw_string("hi\n").unwrap();
    assert_eq!(parse_str(&token).unwrap(), "hi\n");
    let token = marshal_raw_string("a \"quoted\" word").unwrap();
    assert_eq!(parse_str(&token).unwrap(), "a \"quoted\" word");
}

#[test]
fn raw_string_collision_fails() {
    assert_eq!(
        marshal_raw_string("closes \"# early"),
        Err(PipelineError::UnparsableLiteral)
    );
}

#[test]
fn empty_output_gives_hint() {
    // Nothing printed: the conversion error must carry the no-output hint.
    let err = marshal_scalar(ScalarType::I32, "").unwrap_err();
    assert_eq!(
        err,
        PipelineError::TypeConversion { target: ScalarType::I32, no_output: true }
    );
    assert!(err.message().contains("Perhaps you forgot to print the result?"));
    // A bare newline trims to nothing as well.
    let err = marshal_scalar(ScalarType::U8, "\n").unwrap_err();
    assert_eq!(
        err,
        PipelineError::TypeConversion { target: ScalarType::U8, no_output: true }
    );
}

#[test]
fn non_numeric_output_has_no_hint() {
    let err = marshal_scalar(ScalarType::I32, "oops").unwrap_err();
    assert_eq!(
        err,
        PipelineError::TypeConversion { target: ScalarType::I32, no_output: false }
    );
    assert!(!err.message().contains("Perhaps"));
}

#[test]
fn trim_strips_exactly_one_terminator() {
    assert_eq!(trim_line_terminator("1000\n"), "1000");
    assert_eq!(trim_line_terminator("1000\r\n"), "1000");
    assert_eq!(trim_line_terminator("1000"), "1000");
    assert_eq!(trim_line_terminator("1000\n\n"), "1000\n");
    assert_eq!(trim_line_terminator("a\nb\n"), "a\nb");
}

#[test]
fn surrounding_spaces_fail_rather_than_trim() {
    // Only the trailing line terminator goes; other whitespace must make
    // the parse fail instead of being swallowed.
    assert!(marshal_scalar(ScalarType::I32, "1000 \n").is_err());
    assert!(marshal_scalar(ScalarType::I32, " 1000").is_err());
    assert!(marshal_scalar(ScalarType::I32, "1000\n").is_ok());
}

#[test]
fn integer_rendering_is_canonical() {
    assert_eq!(marshal_scalar(ScalarType::I32, "+42\n").unwrap(), "42 as i32");
    assert_eq!(marshal_scalar(ScalarType::I32, "0042\n").unwrap(), "42 as i32");
    assert_eq!(marshal_scalar(ScalarType::I8, "-128\n").unwrap(), "-128 as i8");
    assert_eq!(marshal_scalar(ScalarType::U8, "0\n").unwrap(), "0 as u8");
    assert_eq!(marshal_scalar(ScalarType::I64, "-0\n").unwrap(), "0 as i64");
    assert_eq!(
        marshal_scalar(ScalarType::U128, "340282366920938463463374607431768211455\n").unwrap(),
        "340282366920938463463374607431768211455 as u128"
    );
}

#[test]
fn integer_range_is_enforced() {
    assert!(marshal_scalar(ScalarType::U8, "300\n").is_err());
    assert!(marshal_scalar(ScalarType::I8, "-129\n").is_err());
    assert!(marshal_scalar(ScalarType::I8, "128\n").is_err());
    // A minus sign is not part of the unsigned grammar, even for zero.
    assert!(marshal_scalar(ScalarType::U32, "-0\n").is_err());
    // Wider than the widest magnitude.
    assert!(marshal_scalar(ScalarType::U128, "340282366920938463463374607431768211456\n").is_err());
}

#[test]
fn char_output_must_be_one_character() {
    assert_eq!(marshal_scalar(ScalarType::Char, "h\n").unwrap(), "h as char");
    assert!(marshal_scalar(ScalarType::Char, "hi\n").is_err());
}

#[test]
fn bool_output_is_spliced_bare() {
    assert_eq!(marshal_scalar(ScalarType::Bool, "true\n").unwrap(), "true");
    assert_eq!(marshal_scalar(ScalarType::Bool, "false").unwrap(), "false");
    assert!(marshal_scalar(ScalarType::Bool, "True\n").is_err());
    assert!(marshal_scalar(ScalarType::Bool, "1\n").is_err());
}

#[test]
fn float_texts_follow_the_literal_grammar() {
    assert_eq!(marshal_scalar(ScalarType::F32, "1.5\n").unwrap(), "1.5 as f32");
    assert_eq!(marshal_scalar(ScalarType::F64, "2.5\n").unwrap(), "2.5 as f64");
    assert_eq!(marshal_scalar(ScalarType::F32, "3.").unwrap(), "3. as f32");
    assert_eq!(marshal_scalar(ScalarType::F32, ".5").unwrap(), ".5 as f32");
    assert_eq!(marshal_scalar(ScalarType::F32, "1e3").unwrap(), "1e3 as f32");
    assert_eq!(marshal_scalar(ScalarType::F32, "2E-7").unwrap(), "2E-7 as f32");
    assert_eq!(marshal_scalar(ScalarType::F32, "+2.5\n").unwrap(), "2.5 as f32");
    assert_eq!(marshal_scalar(ScalarType::F32, "-0.25\n").unwrap(), "-0.25 as f32");
    assert_eq!(marshal_scalar(ScalarType::F64, "NaN\n").unwrap(), "NaN as f64");
    assert_eq!(marshal_scalar(ScalarType::F32, "-inf\n").unwrap(), "-inf as f32");
    assert_eq!(marshal_scalar(ScalarType::F32, "Infinity\n").unwrap(), "Infinity as f32");
    assert!(marshal_scalar(ScalarType::F32, "1.2.3\n").is_err());
    assert!(marshal_scalar(ScalarType::F32, "1e\n").is_err());
    assert!(marshal_scalar(ScalarType::F32, ".\n").is_err());
    assert!(marshal_scalar(ScalarType::F32, "abc\n").is_err());
    assert!(marshal_scalar(ScalarType::F32, "1.5 \n").is_err());
}

#[test]
fn every_scalar_name_round_trips() {
    let tags = [
        ScalarType::I8,
        ScalarType::I16,
        ScalarType::I32,
        ScalarType::I64,
        ScalarType::I128,
        ScalarType::U8,
        ScalarType::U16,
        ScalarType::U32,
        ScalarType::U64,
        ScalarType::U128,
        ScalarType::Usize,
        ScalarType::F32,
        ScalarType::F64,
        ScalarType::Char,
        ScalarType::Bool,
    ];
    for tag in tags {
        assert_eq!(scalar_type_from_name(scalar_name_str(tag)).unwrap(), tag);
    }
}
