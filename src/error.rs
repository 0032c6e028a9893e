//! The pipeline's failure conditions.
use vstd::prelude::*;

verus! {

/// Why a step of the pipeline did not complete.
#[derive(Clone, Copy, Debug, PartialEq, Eq, Structural)]
pub enum PipelineError {
    /// Unknown selector or malformed call data: the transaction is skipped.
    DecodeMismatch,
    /// The decoded parameter count disagrees with the selector's schema:
    /// the router registry itself is wrong.
    SchemaInconsistency,
    /// Neither the execution sandbox nor the closed-form estimate gave an answer.
    SimulationUnavailable,
    /// The bundle's target block is not in the window after the current block.
    StaleBundleTarget,
    /// The relay rejected the bundle or returned no receipt.
    BundleSubmissionFailed,
    /// The bundle's status did not resolve within its window.
    Timeout,
}

impl PipelineError {
    /// Whether the failure means that the configuration cannot be trusted,
    /// rather than that one transaction or opportunity failed.
    pub fn is_fatal(&self) -> (r: bool)
        ensures
            r == (*self == PipelineError::SchemaInconsistency),
    {
        match self {
            PipelineError::SchemaInconsistency => true,
            _ => false,
        }
    }
}

} // verus!
