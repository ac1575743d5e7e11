//! What every screen can read and none can change.

use vstd::prelude::*;
use crate::verb_store::VerbStore;

verus! {

/// The shared context of the screens.
#[derive(Clone, Debug)]
pub struct AppContext {
    pub verb_store: VerbStore,
}

impl View for AppContext {
    type V = Seq<Seq<char>>;

    open spec fn view(&self) -> Seq<Seq<char>> {
        self.verb_store@
    }
}

} // verus!
