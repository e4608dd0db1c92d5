//! A node that answers every request kind and forwards each broadcast value
//! to its peers, one value per gossip message.

use crate::body::{Body, BodyView};
use crate::ident::{generated_id, make_id};
use crate::message::{fan_out, gossip, views, Message, MessageView};
use crate::names::{without, without_name};
use crate::outbound::{settle, try_send, SendFailed};
use crate::payload::{narrow_peers, narrowed, Links, LinksView, Payload, PayloadView};
use crate::sets::copy_set;
use std::collections::HashSet;
use std::sync::mpsc::Sender;
use vstd::prelude::*;

verus! {

broadcast use vstd::std_specs::hash::group_hash_axioms;

/// The model of a node: everything but its queue.
pub struct NodeView {
    pub node_id: Seq<char>,
    pub id: usize,
    pub messages: Set<usize>,
    pub gossip_nodes: Seq<Seq<char>>,
    pub topology: LinksView,
}

/// The answer to `msg` with `id` as its own id, around `payload`.
pub open spec fn answer(
    id: usize,
    msg: MessageView<PayloadView>,
    payload: PayloadView,
) -> MessageView<PayloadView> {
    MessageView {
        src: msg.dest,
        dest: msg.src,
        body: BodyView { msg_id: Some(id), in_reply_to: msg.body.msg_id, payload },
    }
}

/// The state a node is in after it has handled `msg`.
pub open spec fn next_state(s: NodeView, msg: MessageView<PayloadView>) -> NodeView {
    match msg.body.payload {
        PayloadView::Init { node_id, node_ids } => NodeView {
            node_id,
            gossip_nodes: without(node_ids, node_id),
            ..s
        },
        PayloadView::Generate => NodeView { id: (s.id + 1) as usize, ..s },
        PayloadView::Topology { topology } => NodeView {
            topology,
            gossip_nodes: narrowed(s.gossip_nodes, topology, s.node_id),
            ..s
        },
        PayloadView::Broadcast { message } => NodeView { messages: s.messages.insert(message), ..s },
        PayloadView::Gossip { message } => NodeView { messages: s.messages.insert(message), ..s },
        _ => s,
    }
}

/// The messages a node in state `s` sends when it handles `msg`: `None` where
/// the kind calls for none.
pub open spec fn responses(s: NodeView, msg: MessageView<PayloadView>) -> Option<
    Seq<MessageView<PayloadView>>,
> {
    match msg.body.payload {
        PayloadView::Echo { echo } => Some(seq![answer(s.id, msg, PayloadView::EchoOk { echo })]),
        PayloadView::Init { .. } => Some(seq![answer(s.id, msg, PayloadView::InitOk)]),
        PayloadView::Generate => Some(
            seq![
                answer(
                    s.id,
                    msg,
                    PayloadView::GenerateOk { id: generated_id(s.node_id, s.id as nat) },
                ),
            ],
        ),
        PayloadView::Topology { .. } => Some(seq![answer(s.id, msg, PayloadView::TopologyOk)]),
        PayloadView::Broadcast { message } => Some(
            seq![answer(s.id, msg, PayloadView::BroadcastOk)] + fan_out(
                s.node_id,
                s.gossip_nodes,
                message,
            ),
        ),
        PayloadView::Read => Some(
            seq![answer(s.id, msg, PayloadView::ReadOk { messages: s.messages })],
        ),
        _ => None,
    }
}

/// A node with its replicated state and the queue it sends through.
#[derive(Debug)]
pub struct Node {
    pub node_id: String,
    pub id: usize,
    pub messages: HashSet<usize>,
    pub tx: Option<Sender<Message<Payload>>>,
    pub gossip_nodes: Vec<String>,
    pub topology: Links,
}

impl View for Node {
    type V = NodeView;

    open spec fn view(&self) -> NodeView {
        NodeView {
            node_id: self.node_id@,
            id: self.id,
            messages: self.messages@,
            gossip_nodes: self.gossip_nodes.deep_view(),
            topology: self.topology.deep_view(),
        }
    }
}

impl Default for Node {
    /// A node without a name, a queue, peers or known values.
    fn default() -> (r: Self)
        ensures
            r@ == (NodeView {
                node_id: Seq::empty(),
                id: 0,
                messages: Set::empty(),
                gossip_nodes: Seq::empty(),
                topology: Seq::empty(),
            }),
            r.tx is None,
    {
        let r = Node {
            node_id: String::new(),
            id: 0,
            messages: HashSet::new(),
            tx: None,
            gossip_nodes: Vec::new(),
            topology: Vec::new(),
        };
        assert(r.gossip_nodes.deep_view() =~= Seq::empty());
        assert(r.topology.deep_view() =~= Seq::empty());
        r
    }
}

impl Node {
    /// Handles `msg`: updates the state and queues the responses in order.
    /// Fails when the queue refuses one of them; the state is updated all the
    /// same.
    pub fn handle_message(&mut self, msg: Message<Payload>) -> (r: Result<(), SendFailed>)
        requires
            responses(old(self)@, msg@) is Some ==> old(self).tx is Some,
            msg@.body.payload is Generate ==> old(self).id < usize::MAX,
        ensures
            final(self)@ == next_state(old(self)@, msg@),
            final(self).tx == old(self).tx,
            responses(old(self)@, msg@) is None ==> r is Ok,
    {
        let ghost request = msg@;
        match self.make_responses(msg) {
            Some(msgs) => {
                let ghost after = *self;
                for next in it: msgs.into_iter()
                    invariant
                        *self == after,
                        request == msg@,
                        after@ == next_state(old(self)@, request),
                        after.tx == old(self).tx,
                        after.tx is Some,
                        responses(old(self)@, request) is Some,
                {
                    match self.send(next) {
                        Ok(()) => {},
                        Err(e) => {
                            return Err(e);
                        },
                    }
                }
                Ok(())
            },
            None => Ok(()),
        }
    }

    /// Computes the responses to `msg` and updates the state: `Init` names the
    /// node and its peers, `Topology` stores the topology and, where it lists
    /// this node, replaces the peers by that list, `Generate` advances
    /// the counter, `Broadcast` and `Gossip` add the value to the known set.
    /// Replies carry the counter as their id and the request's id as
    /// `in_reply_to`. Returns `None` where no response is called for.
    pub fn make_responses(&mut self, msg: Message<Payload>) -> (r: Option<Vec<Message<Payload>>>)
        requires
            msg@.body.payload is Generate ==> old(self).id < usize::MAX,
        ensures
            final(self)@ == next_state(old(self)@, msg@),
            final(self).tx == old(self).tx,
            match r {
                Some(msgs) => responses(old(self)@, msg@) == Some(views(msgs@)),
                None => responses(old(self)@, msg@) is None,
            },
    {
        let reply = msg.to_reply().with_id(self.id);
        let ghost before = self@;
        match msg.body.payload {
            Payload::Echo { echo } => {
                let res = reply.with_payload(Payload::EchoOk { echo });
                let out = vec![res];
                assert(views(out@) =~= responses(before, msg@)->0);
                Some(out)
            },
            Payload::Init { node_id, node_ids } => {
                self.gossip_nodes = without_name(&node_ids, &node_id);
                self.node_id = node_id;
                let res = reply.with_payload(Payload::InitOk);
                let out = vec![res];
                assert(views(out@) =~= responses(before, msg@)->0);
                Some(out)
            },
            Payload::Generate => {
                let payload = Payload::GenerateOk { id: make_id(self.node_id.as_str(), self.id) };
                self.id = self.id + 1;
                let res = reply.with_payload(payload);
                let out = vec![res];
                assert(views(out@) =~= responses(before, msg@)->0);
                Some(out)
            },
            Payload::Topology { topology } => {
                narrow_peers(&mut self.gossip_nodes, &topology, &self.node_id);
                self.topology = topology;
                let res = reply.with_payload(Payload::TopologyOk);
                let out = vec![res];
                assert(views(out@) =~= responses(before, msg@)->0);
                Some(out)
            },
            Payload::Broadcast { message } => {
                self.messages.insert(message);
                let res = reply.with_payload(Payload::BroadcastOk);
                let mut out = vec![res];
                let ghost first = views(out@);
                let mut i: usize = 0;
                while i < self.gossip_nodes.len()
                    invariant
                        i <= self.gossip_nodes.len(),
                        self@ == next_state(before, msg@),
                        self.tx == old(self).tx,
                        self.node_id@ == before.node_id,
                        self.gossip_nodes.deep_view() == before.gossip_nodes,
                        first.len() == 1,
                        views(out@) =~= first + fan_out(
                            before.node_id,
                            before.gossip_nodes,
                            message,
                        ).take(i as int),
                    decreases self.gossip_nodes.len() - i,
                {
                    let note = Message {
                        src: self.node_id.clone(),
                        dest: self.gossip_nodes[i].clone(),
                        body: Body {
                            msg_id: None,
                            in_reply_to: None,
                            payload: Payload::Gossip { message },
                        },
                    };
                    let ghost sent = views(out@);
                    assert(note@ == gossip(
                        before.node_id,
                        before.gossip_nodes[i as int],
                        message,
                    ));
                    out.push(note);
                    assert(views(out@) =~= sent.push(note@));
                    i += 1;
                }
                assert(views(out@) =~= responses(before, msg@)->0);
                Some(out)
            },
            Payload::Read => {
                let res = reply.with_payload(Payload::ReadOk { messages: copy_set(&self.messages) });
                let out = vec![res];
                assert(views(out@) =~= responses(before, msg@)->0);
                Some(out)
            },
            Payload::Gossip { message } => {
                self.messages.insert(message);
                None
            },
            Payload::EchoOk { .. } => None,
            Payload::InitOk => None,
            Payload::GenerateOk { .. } => None,
            Payload::TopologyOk => None,
            Payload::BroadcastOk => None,
            Payload::ReadOk { .. } => None,
            Payload::GossipOk => None,
        }
    }

    /// Hands `msg` to the queue, which the node must have. Fails when the
    /// queue refuses it. The counter is left alone: only a request for an
    /// identifier advances it.
    pub fn send(&mut self, msg: Message<Payload>) -> (r: Result<(), SendFailed>)
        requires
            old(self).tx is Some,
        ensures
            *final(self) == *old(self),
    {
        match &self.tx {
            Some(tx) => settle(try_send(tx, msg)),
            None => vstd::pervasive::unreached(),
        }
    }
}

} // verus!
