//! What can go wrong while a screen is drawn.

use vstd::prelude::*;

verus! {

#[verifier::external_type_specification]
#[verifier::external_body]
pub struct ExTermimadError(termimad::Error);

/// A failure that a screen hands to its host.
#[derive(Debug)]
pub enum ProgramError {
    /// The document could not be written; the cause is the renderer's.
    Termimad(termimad::Error),
}

} // verus!
