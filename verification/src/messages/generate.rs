use vstd::prelude::*;

verus! {

/// Asks for a fresh identifier.
#[derive(Default, Debug, Clone, Copy, PartialEq, Eq)]
pub struct Generate;

} // verus!
