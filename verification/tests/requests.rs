use macro_ruby::error::PipelineError;
use macro_ruby::pipeline::{
    marshal_output, plan_request, EvalRequest, InterpreterKind, PlannedRun, RunnerConfig, Source,
    Target,
};
use macro_ruby::scalar::{scalar_type_from_name, ScalarType};

#[test]
fn code_request_plans_inline_text() {
    let req = EvalRequest {
        source: Source::Code("r#\"print 2+2\"#".to_string()),
        target: Target::RawString,
    };
    assert_eq!(
        plan_request(&req).unwrap(),
        PlannedRun::Inline("print 2+2".to_string())
    );
}

#[test]
fn file_request_plans_a_read() {
    let req = EvalRequest {
        source: Source::File("\"src/file.rb\"".to_string()),
        target: Target::SyntaxFragment,
    };
    assert_eq!(
        plan_request(&req).unwrap(),
        PlannedRun::FromFile("src/file.rb".to_string())
    );
}

#[test]
fn short_literal_fails_planning() {
    let req = EvalRequest { source: Source::Code("\"".to_string()), target: Target::RawString };
    assert_eq!(plan_request(&req), Err(PipelineError::Bounds));
}

#[test]
fn unsupported_type_is_rejected_before_any_run() {
    // The tag lookup fails on its own, with nothing evaluated: a request
    // for a type outside the closed enumeration never reaches a process.
    assert_eq!(
        scalar_type_from_name("String").unwrap_err(),
        PipelineError::UnsupportedType
    );
    assert_eq!(
        scalar_type_from_name("i33").unwrap_err(),
        PipelineError::UnsupportedType
    );
    assert_eq!(
        scalar_type_from_name("").unwrap_err(),
        PipelineError::UnsupportedType
    );
}

#[test]
fn output_dispatch_covers_all_targets() {
    assert_eq!(marshal_output(&Target::RawString, "hi\n").unwrap(), "r#\"hi\n\"#");
    assert_eq!(
        marshal_output(&Target::Scalar(ScalarType::U16), "1000\n").unwrap(),
        "1000 as u16"
    );
    assert_eq!(
        marshal_output(&Target::SyntaxFragment, "let a = 1;").unwrap(),
        "let a = 1;"
    );
}

#[test]
fn runner_configuration_is_explicit() {
    let config = RunnerConfig::standard();
    assert_eq!(config.interpreter, InterpreterKind::Lightweight);
    assert!(config.accept_any_exit_status);
    assert_eq!(config.interpreter.command_name(), "mruby");
    assert_eq!(InterpreterKind::Full.command_name(), "ruby");
    assert_eq!(config.interpreter.eval_flag(), "-e");
}

#[test]
fn error_messages_are_exact() {
    assert_eq!(
        PipelineError::FileRead("src/file.rb".to_string()).message(),
        "Couldn't read file: src/file.rb"
    );
    assert_eq!(
        PipelineError::ProcessSpawn.message(),
        "Couldn't get output from the interpreter"
    );
    assert_eq!(
        PipelineError::NonTextOutput.message(),
        "Non utf-8 output from the interpreter"
    );
    assert_eq!(
        PipelineError::TypeConversion { target: ScalarType::I32, no_output: true }.message(),
        "Couldn't convert to type: i32\nPerhaps you forgot to print the result?"
    );
    assert_eq!(
        PipelineError::TypeConversion { target: ScalarType::U64, no_output: false }.message(),
        "Couldn't convert to type: u64"
    );
    assert_eq!(PipelineError::UnsupportedType.message(), "Unsupported type");
    assert_eq!(
        PipelineError::Bounds.message(),
        "Literal is shorter than its delimiter width"
    );
    assert_eq!(
        PipelineError::UnparsableLiteral.message(),
        "Couldn't parse ruby output, perhaps check for presence of comments in your ruby code"
    );
    assert_eq!(PipelineError::FragmentParse.message(), "Couldn't parse ruby output");
    assert_eq!(
        PipelineError::Usage("Wrong usage".to_string()).message(),
        "Wrong usage"
    );
}
