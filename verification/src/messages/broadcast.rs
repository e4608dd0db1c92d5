use vstd::prelude::*;

verus! {

/// Hands a value to a node for the whole cluster.
#[derive(Default, Debug, Clone, Copy, PartialEq, Eq)]
pub struct Broadcast {
    pub message: usize,
}

} // verus!
