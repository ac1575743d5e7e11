//! The catalog of verbs, as far as a screen needs it: what each entry is
//! invoked with, and what a search for a prefix may answer. The search
//! itself is the host's.

use vstd::prelude::*;

verus! {

/// An entry of the catalog.
#[derive(Clone, Debug)]
pub struct Verb {
    /// The text that invokes the entry.
    pub invocation: String,
}

impl View for Verb {
    type V = Seq<char>;

    open spec fn view(&self) -> Seq<char> {
        self.invocation@
    }
}

/// The entries of the catalog, in the order of their indices.
#[derive(Clone, Debug)]
pub struct VerbStore {
    pub verbs: Vec<Verb>,
}

impl View for VerbStore {
    type V = Seq<Seq<char>>;

    open spec fn view(&self) -> Seq<Seq<char>> {
        self.verbs@.map_values(|verb: Verb| verb@)
    }
}

/// The answer of the catalog to a search by prefix. `Match` holds the index
/// of the one entry found.
#[derive(Clone, Copy, Debug, PartialEq, Eq, Structural)]
pub enum PrefixSearchResult {
    NoMatch,
    Match(usize),
    TooManyMatches,
}

} // verus!
