use vstd::prelude::*;

verus! {

/// Asks for the values the node knows.
#[derive(Default, Debug, Clone, Copy, PartialEq, Eq)]
pub struct Read;

} // verus!
