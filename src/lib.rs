//! Symbolic range elements: bounds of program variables written as trees of
//! literals, references to other variables' bounds, and deferred operations,
//! with evaluation, simplification, comparison and dependency renaming.
use vstd::prelude::*;

pub mod lit;
pub mod elem;
pub mod graph;
pub mod eval;
pub mod laws;

verus! {

/// A position in Solidity source, as solang's parser reports it. Its variants
/// and their `usize` fields are visible here, so that a location can be
/// built and compared.
#[verifier::external_type_specification]
pub struct ExLoc(solang_parser::pt::Loc);

} // verus!
