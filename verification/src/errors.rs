//! The error taxonomy of the pipeline. Every error is fatal: the build
//! stops at the first one and reports it, carrying a short detail string
//! (a file role, a record code, a template or field name).

use vstd::prelude::*;

verus! {

/// One build failure.
///
/// - `Schema`: input data fails structural validation.
/// - `TemplateSyntax`: a malformed placeholder, or a duplicate template name.
/// - `MissingField`: a template references a field absent from its context.
/// - `Asset`: a required static-asset source is missing (raised by the
///   surrounding program, which owns the filesystem).
/// - `Output`: the output directory or a file in it cannot be written
///   (likewise raised by the surrounding program).
#[derive(Debug)]
pub enum BuildError {
    Schema(String),
    TemplateSyntax(String),
    MissingField(String),
    Asset(String),
    Output(String),
}

impl BuildError {
    /// The detail string carried by the error.
    pub fn detail(&self) -> (r: &String)
        ensures
            r == match self {
                BuildError::Schema(d) => d,
                BuildError::TemplateSyntax(d) => d,
                BuildError::MissingField(d) => d,
                BuildError::Asset(d) => d,
                BuildError::Output(d) => d,
            },
    {
        match self {
            BuildError::Schema(d) => d,
            BuildError::TemplateSyntax(d) => d,
            BuildError::MissingField(d) => d,
            BuildError::Asset(d) => d,
            BuildError::Output(d) => d,
        }
    }
}

} // verus!
