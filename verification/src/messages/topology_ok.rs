use vstd::prelude::*;

verus! {

/// Acknowledges a topology.
#[derive(Default, Debug, Clone, Copy, PartialEq, Eq)]
pub struct TopologyOk;

} // verus!
