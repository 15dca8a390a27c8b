//! Errors of the grid source.

use vstd::prelude::*;

verus! {

/// What can go wrong while planning or running the grid source. Each variant
/// carries the expression engine's message, or a description of the mismatch.
#[derive(Debug, PartialEq)]
pub enum GridError {
    /// The expression is ill-typed over the timestamp-only schema.
    Schema(String),
    /// The expression could not be turned into an executable form.
    ExpressionBinding(String),
    /// Evaluating the expression over the generated timestamps failed.
    ExpressionEvaluation(String),
    /// The columns handed over for the output batch do not fit its schema.
    ArrayConstruction(String),
}

} // verus!
