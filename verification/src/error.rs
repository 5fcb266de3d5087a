//! The error taxonomy of the pipeline.  Every failure is terminal for the
//! enclosing build-time expansion: nothing is retried and nothing degrades
//! to a partial result.

use vstd::prelude::*;

use crate::scalar::{ScalarType, scalar_name, scalar_name_str};

verus! {

/// Everything that can go wrong between capturing a literal and splicing
/// the marshalled result.
///
/// The variants that only the unverified edge can raise (a malformed macro
/// call, an unreadable file, a failed spawn, undecodable output) carry just
/// what their message needs; the edge constructs them and this crate
/// renders them.
#[derive(Debug, Clone, PartialEq, Eq)]
pub enum PipelineError {
    /// Malformed macro arguments; the front end supplies the usage text.
    Usage(String),
    /// A captured literal is shorter than its delimiter width.
    Bounds,
    /// A script file could not be read; carries the path.
    FileRead(String),
    /// The interpreter process could not be spawned.
    ProcessSpawn,
    /// The interpreter's standard output was not valid text.
    NonTextOutput,
    /// The trimmed output did not parse as the requested scalar type.
    /// `no_output` is set exactly when the trimmed output was empty, and
    /// adds a hint that the evaluated code probably printed nothing.
    TypeConversion { target: ScalarType, no_output: bool },
    /// The requested scalar type is outside the closed enumeration.
    UnsupportedType,
    /// Raw-string wrapping would collide with the output text.
    UnparsableLiteral,
    /// The output text is not a well-formed syntax fragment.
    FragmentParse,
}

/// The hint appended to a conversion error when the interpreter printed
/// nothing at all.
pub open spec fn no_output_hint() -> Seq<char> {
    "\nPerhaps you forgot to print the result?"@
}

/// The user-visible message of each error.
pub open spec fn message_spec(e: PipelineError) -> Seq<char> {
    match e {
        PipelineError::Usage(m) => m@,
        PipelineError::Bounds => "Literal is shorter than its delimiter width"@,
        PipelineError::FileRead(p) => "Couldn't read file: "@ + p@,
        PipelineError::ProcessSpawn => "Couldn't get output from the interpreter"@,
        PipelineError::NonTextOutput => "Non utf-8 output from the interpreter"@,
        PipelineError::TypeConversion { target, no_output } => {
            let base = "Couldn't convert to type: "@ + scalar_name(target);
            if no_output {
                base + no_output_hint()
            } else {
                base
            }
        },
        PipelineError::UnsupportedType => "Unsupported type"@,
        PipelineError::UnparsableLiteral => (
        "Couldn't parse ruby output, perhaps check for presence of comments in your ruby code"@),
        PipelineError::FragmentParse => "Couldn't parse ruby output"@,
    }
}

impl PipelineError {
    /// Renders the error for the build log.
    pub fn message(&self) -> (r: String)
        ensures
            r@ == message_spec(*self),
    {
        match self {
            PipelineError::Usage(m) => m.clone(),
            PipelineError::Bounds => {
                "Literal is shorter than its delimiter width".to_owned()
            },
            PipelineError::FileRead(p) => {
                let mut r = "Couldn't read file: ".to_owned();
                r.append(p.as_str());
                r
            },
            PipelineError::ProcessSpawn => {
                "Couldn't get output from the interpreter".to_owned()
            },
            PipelineError::NonTextOutput => {
                "Non utf-8 output from the interpreter".to_owned()
            },
            PipelineError::TypeConversion { target, no_output } => {
                let mut r = "Couldn't convert to type: ".to_owned();
                r.append(scalar_name_str(*target));
                if *no_output {
                    r.append("\nPerhaps you forgot to print the result?");
                }
                r
            },
            PipelineError::UnsupportedType => "Unsupported type".to_owned(),
            PipelineError::UnparsableLiteral => {
                "Couldn't parse ruby output, perhaps check for presence of comments in your ruby code".to_owned()
            },
            PipelineError::FragmentParse => "Couldn't parse ruby output".to_owned(),
        }
    }
}

} // verus!
