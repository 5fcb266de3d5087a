use macro_ruby::error::PipelineError;
use macro_ruby::parser::{delimiter_style, parse_str, DelimiterStyle};

#[test]
fn str_test() {
    // The same code in all three delimiter styles normalizes identically.
    assert_eq!(parse_str("\"puts 'hi'\"").unwrap(), "puts 'hi'");
    assert_eq!(parse_str("r\"puts 'hi'\"").unwrap(), "puts 'hi'");
    assert_eq!(parse_str("r#\"puts 'hi'\"#").unwrap(), "puts 'hi'");
    assert_eq!(
        parse_str("r#\"\n                puts 'hi'\n                \"#").unwrap(),
        "\n                puts 'hi'\n                "
    );
}

#[test]
fn delimiter_styles_agree() {
    assert_eq!(parse_str("\"x\"").unwrap(), "x");
    assert_eq!(parse_str("r\"x\"").unwrap(), "x");
    assert_eq!(parse_str("r#\"x\"#").unwrap(), "x");
}

#[test]
fn unrecognized_style_yields_empty() {
    assert_eq!(parse_str("'x'").unwrap(), "");
    assert_eq!(parse_str("bare").unwrap(), "");
    assert_eq!(parse_str("").unwrap(), "");
    assert_eq!(parse_str("b\"bytes\"").unwrap(), "");
}

#[test]
fn normalizer_is_pure() {
    // Repeated calls on the same raw literal return the same value.
    let first = parse_str("r#\"print 1\"#").unwrap();
    let second = parse_str("r#\"print 1\"#").unwrap();
    assert_eq!(first, second);
    assert_eq!(first, "print 1");
}

#[test]
fn short_token_is_bounds_error() {
    // A matched style wider than the token itself must not slice.
    assert_eq!(parse_str("\""), Err(PipelineError::Bounds));
    assert_eq!(parse_str("r\""), Err(PipelineError::Bounds));
    assert_eq!(parse_str("r#\"#"), Err(PipelineError::Bounds));
}

#[test]
fn styles_are_classified_in_priority_order() {
    assert_eq!(delimiter_style("\"x\""), DelimiterStyle::Plain);
    assert_eq!(delimiter_style("r\"x\""), DelimiterStyle::RawQuoted);
    assert_eq!(delimiter_style("r#\"x\"#"), DelimiterStyle::RawHashQuoted);
    assert_eq!(delimiter_style("'x'"), DelimiterStyle::Unrecognized);
    // A lone quote still matches the plain style; it fails on width.
    assert_eq!(delimiter_style("\""), DelimiterStyle::Plain);
}

#[test]
fn width_edge_cases() {
    // Exactly the delimiters, nothing inside.
    assert_eq!(parse_str("\"\"").unwrap(), "");
    assert_eq!(parse_str("r\"\"").unwrap(), "");
    assert_eq!(parse_str("r#\"\"#").unwrap(), "");
    // A quote as the whole body of a plain token.
    assert_eq!(parse_str("\"\"\"").unwrap(), "\"");
}

#[test]
fn delimiters_are_stripped_not_unescaped() {
    // Escape sequences in the body pass through untouched.
    assert_eq!(parse_str("\"a\\nb\"").unwrap(), "a\\nb");
}
