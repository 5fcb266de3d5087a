use macro_ruby::error::PipelineError;
use macro_ruby::fragment::marshal_fragment;

#[test]
fn ast_test() {
    // Three generated statements, as a small enumeration would print
    // them, splice as three independently valid statements.
    let out = "let var0 = 0;\nlet var1 = 1;\nlet var2 = 2;\n";
    assert_eq!(marshal_fragment(out).unwrap(), out);
    assert_eq!(marshal_fragment("let var0 = 0;").unwrap(), "let var0 = 0;");
    assert_eq!(marshal_fragment("let var1 = 1;").unwrap(), "let var1 = 1;");
    assert_eq!(marshal_fragment("let var2 = 2;").unwrap(), "let var2 = 2;");
}

#[test]
fn balanced_delimiters_pass() {
    assert!(marshal_fragment("fn f(x: [u8; 4]) { g(x) }").is_ok());
    assert!(marshal_fragment("").is_ok());
    assert!(marshal_fragment("a + b").is_ok());
}

#[test]
fn unbalanced_delimiters_fail() {
    assert_eq!(marshal_fragment("(").unwrap_err(), PipelineError::FragmentParse);
    assert_eq!(marshal_fragment("f(]").unwrap_err(), PipelineError::FragmentParse);
    assert_eq!(marshal_fragment("}"), Err(PipelineError::FragmentParse));
    assert_eq!(marshal_fragment("{ [ } ]"), Err(PipelineError::FragmentParse));
}

#[test]
fn strings_shield_their_contents() {
    assert!(marshal_fragment("let s = \")\";").is_ok());
    assert!(marshal_fragment("let s = \"((\";").is_ok());
    assert!(marshal_fragment("let s = \"a\\\"b)\";").is_ok());
    // An unterminated string is not a token sequence.
    assert!(marshal_fragment("let s = \"open").is_err());
}

#[test]
fn char_literals_and_lifetimes() {
    assert!(marshal_fragment("let c = '(';").is_ok());
    assert!(marshal_fragment("let c = '\\n';").is_ok());
    assert!(marshal_fragment("let c = '\\u{41}';").is_ok());
    assert!(marshal_fragment("fn f<'a>(x: &'a str) -> &'a str { x }").is_ok());
    // A lifetime may end the fragment.
    assert!(marshal_fragment("&'a").is_ok());
    // An empty char literal cannot.
    assert!(marshal_fragment("let c = '';").is_err());
}

#[test]
fn comments_shield_their_contents() {
    assert!(marshal_fragment("// not closed (\nlet a = 1;").is_ok());
    // A line comment may run to the end of the text.
    assert!(marshal_fragment("let a = 1; // trailing (").is_ok());
    assert!(marshal_fragment("/* ( */ let a = 1;").is_ok());
    assert!(marshal_fragment("/* outer /* inner */ still out */").is_ok());
    // An unterminated block comment fails.
    assert!(marshal_fragment("/* open").is_err());
    assert!(marshal_fragment("/* outer /* inner */").is_err());
    // Division is ordinary code, even at the end.
    assert!(marshal_fragment("let a = b / c;").is_ok());
    assert!(marshal_fragment("a /").is_ok());
}
