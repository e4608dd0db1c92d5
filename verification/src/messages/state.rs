use crate::payload::{Links, LinksView};
use std::collections::HashSet;
use vstd::prelude::*;

verus! {

/// The model of a node's state.
pub struct StateView {
    pub node_id: Seq<char>,
    pub id: usize,
    pub messages: Set<usize>,
    pub gossip_nodes: Seq<Seq<char>>,
    pub topology: LinksView,
}

/// What a node keeps between requests: its name, its counter, the values it
/// knows, the peers it forwards to, and the topology it was told.
#[derive(Debug)]
pub struct State {
    pub node_id: String,
    pub id: usize,
    pub messages: HashSet<usize>,
    pub gossip_nodes: Vec<String>,
    pub topology: Links,
}

impl View for State {
    type V = StateView;

    open spec fn view(&self) -> StateView {
        StateView {
            node_id: self.node_id@,
            id: self.id,
            messages: self.messages@,
            gossip_nodes: self.gossip_nodes.deep_view(),
            topology: self.topology.deep_view(),
        }
    }
}

impl Default for State {
    /// The state of a node that has not been named yet.
    fn default() -> (r: Self)
        ensures
            r@ == (StateView {
                node_id: Seq::empty(),
                id: 0,
                messages: Set::empty(),
                gossip_nodes: Seq::empty(),
                topology: Seq::empty(),
            }),
    {
        let r = State {
            node_id: String::new(),
            id: 0,
            messages: HashSet::new(),
            gossip_nodes: Vec::new(),
            topology: Vec::new(),
        };
        assert(r.gossip_nodes.deep_view() =~= Seq::empty());
        assert(r.topology.deep_view() =~= Seq::empty());
        r
    }
}

impl State {
    pub fn new(
        node_id: String,
        id: usize,
        messages: HashSet<usize>,
        gossip_nodes: Vec<String>,
        topology: Links,
    ) -> (r: Self)
        ensures
            r == (State { node_id, id, messages, gossip_nodes, topology }),
    {
        Self { node_id, id, messages, gossip_nodes, topology }
    }
}

} // verus!
