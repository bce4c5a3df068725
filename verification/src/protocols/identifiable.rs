//! Identity of reasoning and context elements.

use vstd::prelude::*;

verus! {

/// Anything with a stable numeric identity.
pub trait Identifiable: Sized {
    /// The identity, as an abstract value.
    spec fn spec_id(&self) -> u64;

    /// The identity.
    fn id(&self) -> (id: u64)
        ensures
            id == self.spec_id(),
    ;
}

} // verus!
