use vstd::prelude::*;

verus! {

/// Names the node and lists every node of the cluster.
#[derive(Debug, Clone, PartialEq, Eq)]
pub struct Init {
    pub node_id: String,
    pub node_ids: Vec<String>,
}

impl Default for Init {
    fn default() -> (r: Self)
        ensures
            r.node_id@ == Seq::<char>::empty(),
            r.node_ids@ == Seq::<String>::empty(),
    {
        Init { node_id: String::new(), node_ids: Vec::new() }
    }
}

} // verus!
