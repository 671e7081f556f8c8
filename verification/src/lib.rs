//! A small, fully specified static-site generation pipeline.
//!
//! Validated status records become flat render contexts; a minimal
//! placeholder template engine substitutes every `{field}` in a compiled
//! template with the context's value for `field`; and a site plan lists
//! every output file of one build with its exact name and contents. The
//! surrounding program only reads the input files, resets the output
//! directory, copies static assets, and writes the planned files out.

pub mod builder;
pub mod context;
pub mod errors;
pub mod records;
pub mod rows;
pub mod template;
pub mod text;
