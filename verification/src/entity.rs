use vstd::prelude::*;

verus! {

/// A newtype wrapper around `u64` representing a unique entity identifier.
#[derive(Debug, Copy, Clone, Hash, PartialEq, Eq, Structural)]
pub struct EntityId(pub u64);

} // verus!
