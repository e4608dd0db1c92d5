use vstd::prelude::*;

verus! {

/// Acknowledges a gossip message. No node sends it: gossip goes unanswered.
#[derive(Default, Debug, Clone, Copy, PartialEq, Eq)]
pub struct GossipOk;

} // verus!
