use vstd::prelude::*;

verus! {

#[verifier::external_type_specification]
#[verifier::external_body]
pub struct ExRegexError(regex::Error);

/// Why a path could not be projected or rewritten.
#[derive(Debug)]
pub enum DotcopterError {
    /// The home-substitution pattern could not be compiled.
    Regex(regex::Error),
    /// `path` does not lie inside the directory `base`.
    StripPrefix { path: String, base: String },
}

} // verus!
