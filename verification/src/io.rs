//! The sink that screens draw on.

use vstd::prelude::*;

verus! {

/// Text queued for the terminal: escape sequences and content, in the order
/// in which the terminal is to receive them. The host sends it and flushes.
pub type W = String;

} // verus!
