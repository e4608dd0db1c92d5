//! The node: its state, what each request does to it, and what it sends.

use super::body::{Body, BodyView};
use super::message::{Message, MessageView};
use super::message_type::{MessageType, MessageTypeView, Request, RequestView, ResponseView};
use crate::ident::{generated_id, make_id};
use crate::names::{distinct, distinct_names, join_names, joined, without, without_name};
use crate::outbound::send_all;
use crate::payload::{find_links, links_of};
use crate::sets::{copy_set, merge_into};
use std::collections::HashSet;
use std::sync::mpsc::Sender;
use vstd::prelude::*;
use vstd::string::StringExecFns;

verus! {

broadcast use vstd::std_specs::hash::group_hash_axioms;

/// The model of a node: everything but its queue. `topology` and
/// `neighbors` are sets of names, kept as lists in the order of arrival.
pub struct NodeView {
    pub id: usize,
    pub node_id: Seq<char>,
    pub topology: Seq<Seq<char>>,
    pub neighbors: Seq<Seq<char>>,
    pub messages_buffer: Set<usize>,
}

impl NodeView {
    /// A node as it starts: no name, nothing known, nobody to talk to.
    pub open spec fn fresh() -> NodeView {
        NodeView {
            id: 0,
            node_id: Seq::empty(),
            topology: Seq::empty(),
            neighbors: Seq::empty(),
            messages_buffer: Set::empty(),
        }
    }

    /// No name is listed twice, and the node is not its own neighbor.
    pub open spec fn wf(self) -> bool {
        &&& self.topology.no_duplicates()
        &&& self.neighbors.no_duplicates()
        &&& !self.neighbors.contains(self.node_id)
    }
}

/// Why a message was not handled.
#[derive(Debug, Clone, Copy, PartialEq, Eq)]
pub enum ReplyError {
    /// The message reports an error and calls for no answer.
    Failure,
    /// The queue refused a response.
    SendFailed,
}

/// The peers of a node named `id` among `listed`: every other name, once.
pub open spec fn peers_among(listed: Seq<Seq<char>>, id: Seq<char>) -> Seq<Seq<char>> {
    distinct(without(listed, id))
}

/// The state of a node after a message with payload `kind`.
pub open spec fn next_state(s: NodeView, kind: MessageTypeView) -> NodeView {
    match kind {
        MessageTypeView::Request(RequestView::Init { node_id, node_ids }) => NodeView {
            node_id,
            neighbors: peers_among(node_ids, node_id),
            ..s
        },
        MessageTypeView::Request(RequestView::Generate) => NodeView {
            id: (s.id + 1) as usize,
            ..s
        },
        MessageTypeView::Request(RequestView::Topology { topology }) => match links_of(
            topology,
            s.node_id,
        ) {
            Some(listed) => NodeView {
                topology: joined(s.topology, listed),
                neighbors: peers_among(listed, s.node_id),
                ..s
            },
            None => s,
        },
        MessageTypeView::Request(RequestView::Broadcast { message }) => NodeView {
            messages_buffer: s.messages_buffer.insert(message),
            ..s
        },
        MessageTypeView::Request(RequestView::Gossip { message }) => NodeView {
            messages_buffer: s.messages_buffer.union(message),
            ..s
        },
        _ => s,
    }
}

/// The payload with which a node in state `s` answers `request`.
pub open spec fn answer(s: NodeView, request: RequestView) -> MessageTypeView {
    match request {
        RequestView::Echo { echo } => MessageTypeView::Response(ResponseView::EchoOk { echo }),
        RequestView::Init { .. } => MessageTypeView::Response(ResponseView::InitOk),
        RequestView::Generate => MessageTypeView::Response(
            ResponseView::GenerateOk { id: generated_id(s.node_id, s.id as nat) },
        ),
        RequestView::Topology { .. } => MessageTypeView::Response(ResponseView::TopologyOk),
        RequestView::Read => MessageTypeView::Response(
            ResponseView::ReadOk { messages: s.messages_buffer },
        ),
        RequestView::Broadcast { .. } => MessageTypeView::Response(ResponseView::BroadcastOk),
        RequestView::Gossip { .. } => MessageTypeView::Error {
            code: 12,
            text: "Unexpected request"@,
        },
    }
}

/// The response to `req` around `kind`: sender and receiver swapped, the
/// request's id kept and repeated as `in_reply_to`.
pub open spec fn response(req: MessageView, kind: MessageTypeView) -> MessageView {
    MessageView {
        src: req.dest,
        dest: req.src,
        body: BodyView { _type: kind, msg_id: req.body.msg_id, in_reply_to: req.body.msg_id },
    }
}

/// The gossip message that carries the set `known` from `src` to `dest`.
pub open spec fn gossip(src: Seq<char>, dest: Seq<char>, known: Set<usize>) -> MessageView {
    MessageView {
        src,
        dest,
        body: BodyView {
            _type: MessageTypeView::Request(RequestView::Gossip { message: known }),
            msg_id: None,
            in_reply_to: None,
        },
    }
}

/// One gossip message with `known` to each of `peers`, in their order.
pub open spec fn fan_out(src: Seq<char>, peers: Seq<Seq<char>>, known: Set<usize>) -> Seq<
    MessageView,
> {
    Seq::new(peers.len(), |i: int| gossip(src, peers[i], known))
}

/// The messages that a node in state `s` sends when it handles `req`, in
/// order: the response first, then, for a broadcast, the whole known set to
/// every neighbor. Gossip, responses and errors are answered by nothing.
pub open spec fn outgoing(s: NodeView, req: MessageView) -> Seq<MessageView> {
    let after = next_state(s, req.body._type);
    match req.body._type {
        MessageTypeView::Request(RequestView::Gossip { .. }) => Seq::empty(),
        MessageTypeView::Request(RequestView::Broadcast { message }) => seq![
            response(req, answer(after, RequestView::Broadcast { message })),
        ] + fan_out(after.node_id, after.neighbors, after.messages_buffer),
        MessageTypeView::Request(request) => seq![response(req, answer(after, request))],
        _ => Seq::empty(),
    }
}

/// The models of a list of messages, in order.
pub open spec fn views(msgs: Seq<Message>) -> Seq<MessageView> {
    Seq::new(msgs.len(), |i: int| msgs[i]@)
}

/// A node with its replicated state and the queue it sends through.
#[derive(Debug)]
pub struct Node {
    id: usize,
    node_id: String,
    topology: Vec<String>,
    neighbors: Vec<String>,
    messages_buffer: HashSet<usize>,
    tx: Sender<Message>,
}

impl View for Node {
    type V = NodeView;

    closed spec fn view(&self) -> NodeView {
        NodeView {
            id: self.id,
            node_id: self.node_id@,
            topology: self.topology.deep_view(),
            neighbors: self.neighbors.deep_view(),
            messages_buffer: self.messages_buffer@,
        }
    }
}

impl Node {
    pub fn new(tx: Sender<Message>) -> (r: Self)
        ensures
            r@ == NodeView::fresh(),
    {
        let r = Self {
            id: 0,
            node_id: String::new(),
            topology: Vec::new(),
            neighbors: Vec::new(),
            messages_buffer: HashSet::new(),
            tx,
        };
        assert(r.topology.deep_view() =~= Seq::empty());
        assert(r.neighbors.deep_view() =~= Seq::empty());
        r
    }

    /// The counter: how many identifiers the node has handed out.
    pub fn id(&self) -> (r: usize)
        ensures
            r == self@.id,
    {
        self.id
    }

    pub fn node_id(&self) -> (r: &str)
        ensures
            r@ == self@.node_id,
    {
        self.node_id.as_str()
    }

    pub fn set_node_id(&mut self, node_id: &str)
        ensures
            final(self)@ == (NodeView { node_id: node_id@, ..old(self)@ }),
    {
        self.node_id = String::from_str(node_id);
    }

    /// Advances the counter by one.
    pub fn increment_id(&mut self)
        requires
            old(self)@.id < usize::MAX,
        ensures
            final(self)@ == (NodeView { id: (old(self)@.id + 1) as usize, ..old(self)@ }),
    {
        self.id += 1;
    }

    /// The identifier for the current counter value: the node's name, a
    /// hyphen and the counter in decimal.
    pub fn generate_id(&self) -> (r: String)
        ensures
            r@ == generated_id(self@.node_id, self@.id as nat),
    {
        make_id(self.node_id.as_str(), self.id)
    }

    /// Adds the names of `topology` that are not yet there.
    pub fn set_topology(&mut self, topology: &[String])
        ensures
            final(self)@ == (NodeView {
                topology: joined(old(self)@.topology, topology.deep_view()),
                ..old(self)@
            }),
    {
        join_names(&mut self.topology, topology);
    }

    pub fn topology(&self) -> (r: &Vec<String>)
        ensures
            r.deep_view() == self@.topology,
    {
        &self.topology
    }

    pub fn topology_mut(&mut self) -> (r: &mut Vec<String>)
        ensures
            r.deep_view() == old(self)@.topology,
            final(self)@ == (NodeView { topology: final(r).deep_view(), ..old(self)@ }),
    {
        &mut self.topology
    }

    /// Adds the names of `neighbors` that are not yet there.
    pub fn set_neighbors(&mut self, neighbors: &[String])
        ensures
            final(self)@ == (NodeView {
                neighbors: joined(old(self)@.neighbors, neighbors.deep_view()),
                ..old(self)@
            }),
    {
        join_names(&mut self.neighbors, neighbors);
    }

    pub fn neighbors(&self) -> (r: &Vec<String>)
        ensures
            r.deep_view() == self@.neighbors,
    {
        &self.neighbors
    }

    pub fn neighbors_mut(&mut self) -> (r: &mut Vec<String>)
        ensures
            r.deep_view() == old(self)@.neighbors,
            final(self)@ == (NodeView { neighbors: final(r).deep_view(), ..old(self)@ }),
    {
        &mut self.neighbors
    }

    pub fn messages_buffer_mut(&mut self) -> (r: &mut HashSet<usize>)
        ensures
            r@ == old(self)@.messages_buffer,
            final(self)@ == (NodeView { messages_buffer: final(r)@, ..old(self)@ }),
    {
        &mut self.messages_buffer
    }

    /// Applies `req` to the state. `Init` names the node and makes every
    /// other listed node its neighbor; `Topology`, where it lists this node,
    /// adds the listed names to the topology and makes them the neighbors;
    /// `Generate` advances the counter; `Broadcast` adds its value and
    /// `Gossip` its values to the known set. Everything else leaves the
    /// state as it is.
    pub fn apply(&mut self, req: &Message)
        requires
            req@.body._type == MessageTypeView::Request(RequestView::Generate) ==> old(self)@.id
                < usize::MAX,
        ensures
            final(self)@ == next_state(old(self)@, req@.body._type),
    {
        match req.body()._type() {
            MessageType::Request(Request::Init { node_id, node_ids }) => {
                self.node_id = node_id.clone();
                let others = without_name(node_ids, node_id);
                self.neighbors = distinct_names(others.as_slice());
            },
            MessageType::Request(Request::Generate) => {
                self.increment_id();
            },
            MessageType::Request(Request::Topology { topology }) => {
                match find_links(topology, &self.node_id) {
                    Some(listed) => {
                        join_names(&mut self.topology, listed.as_slice());
                        let others = without_name(listed, &self.node_id);
                        self.neighbors = distinct_names(others.as_slice());
                    },
                    None => {},
                }
            },
            MessageType::Request(Request::Broadcast { message }) => {
                self.messages_buffer.insert(*message);
            },
            MessageType::Request(Request::Gossip { message }) => {
                merge_into(&mut self.messages_buffer, message);
            },
            _ => {},
        }
    }

    /// Handles `req` without sending: applies it to the state and returns the
    /// messages to send, in order. A message that reports an error is
    /// refused and changes nothing.
    pub fn step(&mut self, req: Message) -> (r: Result<Vec<Message>, ReplyError>)
        requires
            req@.body._type == MessageTypeView::Request(RequestView::Generate) ==> old(self)@.id
                < usize::MAX,
        ensures
            final(self)@ == next_state(old(self)@, req@.body._type),
            match r {
                Ok(out) => !(req@.body._type is Error) && views(out@) == outgoing(
                    old(self)@,
                    req@,
                ) && forall|i: int| 0 <= i < out@.len() ==> (#[trigger] out@[i]).lists_once(),
                Err(e) => req@.body._type is Error && e == ReplyError::Failure,
            },
    {
        self.apply(&req);
        let mut out: Vec<Message> = Vec::new();
        match req.body()._type() {
            MessageType::Request(Request::Gossip { .. }) => {
                assert(views(out@) =~= outgoing(old(self)@, req@));
                Ok(out)
            },
            MessageType::Request(Request::Broadcast { .. }) => {
                let resp = req.make_response(self);
                out.push(resp);
                let ghost first = views(out@);
                let ghost after = self@;
                let mut i: usize = 0;
                while i < self.neighbors.len()
                    invariant
                        i <= self.neighbors.len(),
                        self@ == after,
                        first.len() == 1,
                        views(out@) =~= first + fan_out(
                            after.node_id,
                            after.neighbors,
                            after.messages_buffer,
                        ).take(i as int),
                        forall|j: int| 0 <= j < out@.len() ==> (#[trigger] out@[j]).lists_once(),
                    decreases self.neighbors.len() - i,
                {
                    let note = Message::new(
                        self.node_id.as_str(),
                        self.neighbors[i].as_str(),
                        Body::new(
                            MessageType::Request(
                                Request::Gossip { message: copy_set(&self.messages_buffer) },
                            ),
                            None,
                            None,
                        ),
                    );
                    let ghost sent = views(out@);
                    assert(note@ == gossip(
                        after.node_id,
                        after.neighbors[i as int],
                        after.messages_buffer,
                    ));
                    out.push(note);
                    assert(views(out@) =~= sent.push(note@));
                    i += 1;
                }
                assert(views(out@) =~= outgoing(old(self)@, req@));
                Ok(out)
            },
            MessageType::Request(_) => {
                let resp = req.make_response(self);
                out.push(resp);
                assert(views(out@) =~= outgoing(old(self)@, req@));
                Ok(out)
            },
            MessageType::Response(_) => {
                assert(views(out@) =~= outgoing(old(self)@, req@));
                Ok(out)
            },
            MessageType::Error { .. } => Err(ReplyError::Failure),
        }
    }

    /// Handles `req`: applies it to the state and queues what [`Node::step`]
    /// returns. Fails when the message reports an error, or when the queue
    /// refuses a message; the state is updated all the same.
    pub fn reply(&mut self, req: Message) -> (r: Result<(), ReplyError>)
        requires
            req@.body._type == MessageTypeView::Request(RequestView::Generate) ==> old(self)@.id
                < usize::MAX,
        ensures
            final(self)@ == next_state(old(self)@, req@.body._type),
            req@.body._type is Error <==> r == Err::<(), ReplyError>(ReplyError::Failure),
            !(req@.body._type is Error) && outgoing(old(self)@, req@).len() == 0 ==> r is Ok,
    {
        match self.step(req) {
            Ok(out) => {
                let total = out.len();
                if send_all(&self.tx, out) == total {
                    Ok(())
                } else {
                    Err(ReplyError::SendFailed)
                }
            },
            Err(e) => Err(e),
        }
    }
}

} // verus!
