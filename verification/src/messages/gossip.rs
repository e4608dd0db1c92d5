use vstd::prelude::*;

verus! {

/// Passes a broadcast value on from node to node.
#[derive(Default, Debug, Clone, Copy, PartialEq, Eq)]
pub struct Gossip {
    pub message: usize,
}

} // verus!
