use vstd::prelude::*;

verus! {

/// Acknowledges a broadcast.
#[derive(Default, Debug, Clone, Copy, PartialEq, Eq)]
pub struct BroadcastOk;

} // verus!
