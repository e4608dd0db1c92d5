//! The closed set of request and reply kinds.

use crate::msg_type::Type;
use crate::names::{copy_names, without, without_name};
use crate::sets::copy_set;
use std::collections::HashSet;
use vstd::prelude::*;

verus! {

/// A topology: for each listed node, the nodes it may forward to.
pub type Links = Vec<(String, Vec<String>)>;

/// The model of a topology.
pub type LinksView = Seq<(Seq<char>, Seq<Seq<char>>)>;

/// The model of a payload.
pub enum PayloadView {
    Echo { echo: Seq<char> },
    EchoOk { echo: Seq<char> },
    Init { node_id: Seq<char>, node_ids: Seq<Seq<char>> },
    InitOk,
    Generate,
    GenerateOk { id: Seq<char> },
    Topology { topology: LinksView },
    TopologyOk,
    Broadcast { message: usize },
    BroadcastOk,
    Read,
    ReadOk { messages: Set<usize> },
    Gossip { message: usize },
    GossipOk,
}

impl PayloadView {
    /// Whether the payload asks the node for something. The others are
    /// replies, which a node ignores.
    pub open spec fn is_request(self) -> bool {
        self is Echo || self is Init || self is Generate || self is Topology || self is Broadcast
            || self is Read || self is Gossip
    }
}

/// The first entry of `links` listed under `id`, if there is one.
pub open spec fn links_of(links: LinksView, id: Seq<char>) -> Option<Seq<Seq<char>>>
    decreases links.len(),
{
    if links.len() == 0 {
        None
    } else if links[0].0 == id {
        Some(links[0].1)
    } else {
        links_of(links.drop_first(), id)
    }
}

/// The peers of the node `id` once it has been told `links`: the nodes listed
/// under `id`, without `id` itself, or `current` where `id` is not listed.
pub open spec fn narrowed(current: Seq<Seq<char>>, links: LinksView, id: Seq<char>) -> Seq<
    Seq<char>,
> {
    match links_of(links, id) {
        Some(listed) => without(listed, id),
        None => current,
    }
}

/// An independent copy of a topology.
pub fn copy_links(links: &Links) -> (r: Links)
    ensures
        r.deep_view() == links.deep_view(),
{
    let mut out: Links = Vec::new();
    let mut i: usize = 0;
    while i < links.len()
        invariant
            i <= links.len(),
            out.deep_view() =~= links.deep_view().take(i as int),
        decreases links.len() - i,
    {
        let ghost before = out.deep_view();
        let name = links[i].0.clone();
        let peers = copy_names(&links[i].1);
        out.push((name, peers));
        assert(out.deep_view() =~= before.push(links.deep_view()[i as int]));
        i += 1;
    }
    assert(links.deep_view().take(links.len() as int) =~= links.deep_view());
    out
}

/// Looks up the nodes listed under `id`.
pub fn find_links<'a>(links: &'a Links, id: &String) -> (r: Option<&'a Vec<String>>)
    ensures
        match r {
            Some(peers) => links_of(links.deep_view(), id@) == Some(peers.deep_view()),
            None => links_of(links.deep_view(), id@) is None,
        },
{
    let mut i: usize = 0;
    assert(links.deep_view().subrange(0, links.len() as int) =~= links.deep_view());
    while i < links.len()
        invariant
            i <= links.len(),
            links_of(links.deep_view(), id@) == links_of(
                links.deep_view().subrange(i as int, links.len() as int),
                id@,
            ),
        decreases links.len() - i,
    {
        let ghost rest = links.deep_view().subrange(i as int, links.len() as int);
        assert(rest[0] == links.deep_view()[i as int]);
        assert(rest.drop_first() =~= links.deep_view().subrange(i as int + 1, links.len() as int));
        if links[i].0 == *id {
            return Some(&links[i].1);
        }
        i += 1;
    }
    None
}

/// Replaces `peers` by the nodes that `links` lists under `id`, without `id`
/// itself. Where `id` is not listed, `peers` stays as it is.
pub fn narrow_peers(peers: &mut Vec<String>, links: &Links, id: &String)
    ensures
        final(peers).deep_view() == narrowed(old(peers).deep_view(), links.deep_view(), id@),
{
    match find_links(links, id) {
        Some(listed) => {
            *peers = without_name(listed, id);
        },
        None => {},
    }
}

/// A payload as it travels in a message body.
#[derive(Debug, PartialEq, Eq)]
pub enum Payload {
    Echo { echo: String },
    EchoOk { echo: String },
    Init { node_id: String, node_ids: Vec<String> },
    InitOk,
    Generate,
    GenerateOk { id: String },
    Topology { topology: Links },
    TopologyOk,
    Broadcast { message: usize },
    BroadcastOk,
    Read,
    ReadOk { messages: HashSet<usize> },
    Gossip { message: usize },
    GossipOk,
}

impl View for Payload {
    type V = PayloadView;

    open spec fn view(&self) -> PayloadView {
        match *self {
            Payload::Echo { echo } => PayloadView::Echo { echo: echo@ },
            Payload::EchoOk { echo } => PayloadView::EchoOk { echo: echo@ },
            Payload::Init { node_id, node_ids } => PayloadView::Init {
                node_id: node_id@,
                node_ids: node_ids.deep_view(),
            },
            Payload::InitOk => PayloadView::InitOk,
            Payload::Generate => PayloadView::Generate,
            Payload::GenerateOk { id } => PayloadView::GenerateOk { id: id@ },
            Payload::Topology { topology } => PayloadView::Topology {
                topology: topology.deep_view(),
            },
            Payload::TopologyOk => PayloadView::TopologyOk,
            Payload::Broadcast { message } => PayloadView::Broadcast { message },
            Payload::BroadcastOk => PayloadView::BroadcastOk,
            Payload::Read => PayloadView::Read,
            Payload::ReadOk { messages } => PayloadView::ReadOk { messages: messages@ },
            Payload::Gossip { message } => PayloadView::Gossip { message },
            Payload::GossipOk => PayloadView::GossipOk,
        }
    }
}

impl Type for Payload {
    fn duplicate(&self) -> (r: Self) {
        match self {
            Payload::Echo { echo } => Payload::Echo { echo: echo.clone() },
            Payload::EchoOk { echo } => Payload::EchoOk { echo: echo.clone() },
            Payload::Init { node_id, node_ids } => Payload::Init {
                node_id: node_id.clone(),
                node_ids: copy_names(node_ids),
            },
            Payload::InitOk => Payload::InitOk,
            Payload::Generate => Payload::Generate,
            Payload::GenerateOk { id } => Payload::GenerateOk { id: id.clone() },
            Payload::Topology { topology } => Payload::Topology { topology: copy_links(topology) },
            Payload::TopologyOk => Payload::TopologyOk,
            Payload::Broadcast { message } => Payload::Broadcast { message: *message },
            Payload::BroadcastOk => Payload::BroadcastOk,
            Payload::Read => Payload::Read,
            Payload::ReadOk { messages } => Payload::ReadOk { messages: copy_set(messages) },
            Payload::Gossip { message } => Payload::Gossip { message: *message },
            Payload::GossipOk => Payload::GossipOk,
        }
    }
}

impl Clone for Payload {
    fn clone(&self) -> (r: Self)
        ensures
            r@ == self@,
    {
        self.duplicate()
    }
}

impl Default for Payload {
    /// The payload of a bare acknowledgement.
    fn default() -> (r: Self)
        ensures
            r == Payload::InitOk,
    {
        Payload::InitOk
    }
}

} // verus!
