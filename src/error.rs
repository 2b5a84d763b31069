//! Errors of the policy model.

use vstd::prelude::*;

verus! {

/// Why a policy entity was refused or could not answer.
#[derive(Clone, Copy, Debug, PartialEq, Eq, Structural, Hash)]
pub enum PolicyError {
    /// An identity is malformed: its certificate lacks the PEM trailer, or
    /// lies outside its validity period.
    FormatError,
    /// The pipeline script does not follow the pipeline grammar.
    PipelineSyntaxError,
    /// The parsed form of a pipeline was asked for before it was parsed.
    PipelineNotParsed,
}

} // verus!
