//! The failure taxonomy of the pipeline.
//!
//! Every fallible step returns a discriminated result and compilation is
//! fail-fast: the first failing step aborts the remaining pipeline.

use crate::checker::VerifierErrors;
use vstd::prelude::*;

verus! {

/// Why a compilation failed.
#[derive(Debug)]
pub enum CodegenError {
    /// A consistency check found the contained, non-empty violation list.
    Verifier(VerifierErrors),
    /// No register assignment exists for the function's values under the
    /// target's register file.
    Regalloc,
    /// The encoded function does not fit the 32-bit code-size field.
    CodeTooLarge,
}

/// The result of a fallible compilation step.
pub type CodegenResult<T> = Result<T, CodegenError>;

} // verus!
