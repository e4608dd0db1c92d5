use crate::payload::Links;
use vstd::prelude::*;

verus! {

/// Tells each node which nodes it may forward to.
#[derive(Debug, Clone, PartialEq, Eq)]
pub struct Topology {
    pub topology: Links,
}

impl Default for Topology {
    fn default() -> (r: Self)
        ensures
            r.topology@ == Seq::<(String, Vec<String>)>::empty(),
    {
        Topology { topology: Vec::new() }
    }
}

} // verus!
