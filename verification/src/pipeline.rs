//! The request model the thin front end drives: what to evaluate, what
//! the caller wants back, and how the runner is to invoke the
//! interpreter.
//!
//! A request is planned into the exact text to send (or the file to
//! read), the unverified edge performs the one process spawn, and the
//! captured output comes back through [`marshal_output`].  Everything
//! that decides — normalization, target dispatch, parsing — happens
//! here; the edge only moves bytes.

use vstd::prelude::*;

use crate::error::PipelineError;
use crate::fragment::{fragment_ok, marshal_fragment};
use crate::marshal::{
    contains_close_delim, marshal_raw_string, marshal_scalar, raw_wrap, scalar_marshal_spec,
};
use crate::parser::{normalize_spec, parse_str};
use crate::scalar::ScalarType;

verus! {

/// What to evaluate: inline code text, or the contents of a file — in
/// either case captured as a still-delimited literal token.
#[derive(Debug, Clone, PartialEq, Eq)]
pub enum Source {
    Code(String),
    File(String),
}

/// What the caller wants back from the captured output.
#[derive(Debug, Clone, PartialEq, Eq)]
pub enum Target {
    /// The output verbatim, wrapped as a raw string literal.
    RawString,
    /// The output parsed as one scalar type and rendered type-annotated.
    Scalar(ScalarType),
    /// The output spliced directly as host-language syntax.
    SyntaxFragment,
}

/// One evaluation request: a source and a target, consumed once.
#[derive(Debug, Clone, PartialEq, Eq)]
pub struct EvalRequest {
    pub source: Source,
    pub target: Target,
}

/// What the runner must do for a request: evaluate inline text, or read
/// a file and evaluate its contents.
#[derive(Debug, Clone, PartialEq, Eq)]
pub enum PlannedRun {
    Inline(String),
    FromFile(String),
}

/// The literal token a request's source carries.
pub open spec fn source_literal(src: Source) -> Seq<char> {
    match src {
        Source::Code(l) => l@,
        Source::File(l) => l@,
    }
}

/// Normalizes a request's literal into the runner's instruction.  No
/// process is involved: a bounds failure (and, for a scalar target, an
/// unsupported type — rejected before this by the front end's tag
/// lookup) surfaces before anything is spawned.
pub fn plan_request(req: &EvalRequest) -> (r: Result<PlannedRun, PipelineError>)
    ensures
        match r {
            Ok(PlannedRun::Inline(text)) => !(req.source is File) && normalize_spec(
                source_literal(req.source),
            ) == Some(text@),
            Ok(PlannedRun::FromFile(path)) => req.source is File && normalize_spec(
                source_literal(req.source),
            ) == Some(path@),
            Err(e) => normalize_spec(source_literal(req.source)) is None && e
                == PipelineError::Bounds,
        },
{
    match &req.source {
        Source::Code(lit) => match parse_str(lit.as_str()) {
            Ok(text) => Ok(PlannedRun::Inline(text)),
            Err(e) => Err(e),
        },
        Source::File(lit) => match parse_str(lit.as_str()) {
            Ok(path) => Ok(PlannedRun::FromFile(path)),
            Err(e) => Err(e),
        },
    }
}

/// What marshalling the captured output for a target yields.
pub open spec fn marshal_spec(t: Target, out: Seq<char>) -> Result<Seq<char>, PipelineError> {
    match t {
        Target::RawString => if contains_close_delim(out) {
            Err(PipelineError::UnparsableLiteral)
        } else {
            Ok(raw_wrap(out))
        },
        Target::Scalar(st) => scalar_marshal_spec(st, out),
        Target::SyntaxFragment => if fragment_ok(out) {
            Ok(out)
        } else {
            Err(PipelineError::FragmentParse)
        },
    }
}

/// Marshals the captured output per the request's target.
pub fn marshal_output(target: &Target, out: &str) -> (r: Result<String, PipelineError>)
    ensures
        match r {
            Ok(s) => marshal_spec(*target, out@) == Ok::<Seq<char>, PipelineError>(s@),
            Err(e) => marshal_spec(*target, out@) == Err::<Seq<char>, PipelineError>(e),
        },
{
    match target {
        Target::RawString => marshal_raw_string(out),
        Target::Scalar(st) => marshal_scalar(*st, out),
        Target::SyntaxFragment => marshal_fragment(out),
    }
}

/// The two fixed interpreter alternatives the runner can be built with.
#[derive(Clone, Copy, Debug, PartialEq, Eq, Structural)]
pub enum InterpreterKind {
    /// The small embedded implementation.
    Lightweight,
    /// The full implementation.
    Full,
}

impl InterpreterKind {
    /// The executable name the runner spawns for this alternative.
    pub fn command_name(&self) -> (r: &'static str)
        ensures
            *self == InterpreterKind::Lightweight ==> r@ == "mruby"@,
            *self == InterpreterKind::Full ==> r@ == "ruby"@,
    {
        match self {
            InterpreterKind::Lightweight => "mruby",
            InterpreterKind::Full => "ruby",
        }
    }

    /// The flag that makes the interpreter evaluate its next argument as
    /// inline program text.
    pub fn eval_flag(&self) -> (r: &'static str)
        ensures
            r@ == "-e"@,
    {
        "-e"
    }
}

/// How the runner invokes the interpreter: which binary, and whether
/// stdout counts as the result even on a nonzero exit status.  The
/// latter is a deliberate, named choice — the baseline design never
/// inspects the child's exit status.
#[derive(Clone, Copy, Debug, PartialEq, Eq, Structural)]
pub struct RunnerConfig {
    pub interpreter: InterpreterKind,
    pub accept_any_exit_status: bool,
}

impl RunnerConfig {
    /// The stock configuration: the lightweight interpreter, any exit
    /// status accepted.
    pub fn standard() -> (r: RunnerConfig)
        ensures
            r.interpreter == InterpreterKind::Lightweight,
            r.accept_any_exit_status,
    {
        RunnerConfig { interpreter: InterpreterKind::Lightweight, accept_any_exit_status: true }
    }
}

} // verus!
