//! Build-time evaluation pipeline for an embedded scripting language.
//!
//! A caller captures a quoted literal of script code (or of a file path),
//! has an external interpreter evaluate it, and splices the captured
//! standard output back into the host program.  This crate holds the
//! verified core of that pipeline:
//!
//! * the literal normalizer, which strips the delimiter convention from a
//!   captured literal token ([`parser::parse_str`]);
//! * the result marshaller, which turns the interpreter's raw output into
//!   a raw string literal, a typed scalar rendering, or a checked syntax
//!   fragment ([`marshal`]);
//! * the request model that a thin front end drives ([`pipeline`]).
//!
//! Process spawning and file reading are left to the (unverified) caller;
//! everything that decides or computes is specified and proved here.

pub mod error;
pub mod float_text;
pub mod fragment;
pub mod marshal;
pub mod parser;
pub mod pipeline;
pub mod scalar;
pub mod text;
