//! What holds of every node, whatever it is sent.

use crate::codec;
use crate::codec::{DecodeError, Json};
use crate::controller;
use crate::message::Message;
use crate::model;
use crate::model::wire;
use crate::payload::Payload;
use crate::ident::{generated_id, lemma_generated_id_injective};
use crate::message::MessageView as Envelope;
use crate::messages::StateView;
use crate::model::node::{answer, gossip, next_state, outgoing, peers_among};
use crate::model::{MessageTypeView, MessageView, NodeView, RequestView, ResponseView};
use crate::names::{lemma_joined_members, lemma_without_excludes, without};
use crate::node;
use crate::payload::{links_of, PayloadView};
use vstd::prelude::*;

verus! {

/// The values that a message with payload `kind` adds to the known set.
pub open spec fn carried(kind: MessageTypeView) -> Set<usize> {
    match kind {
        MessageTypeView::Request(RequestView::Broadcast { message }) => set![message],
        MessageTypeView::Request(RequestView::Gossip { message }) => message,
        _ => Set::empty(),
    }
}

/// The values that the messages `kinds` add together.
pub open spec fn all_carried(kinds: Seq<MessageTypeView>) -> Set<usize>
    decreases kinds.len(),
{
    if kinds.len() == 0 {
        Set::empty()
    } else {
        all_carried(kinds.drop_last()).union(carried(kinds.last()))
    }
}

/// The state of a node after the messages `kinds`, handled in order.
pub open spec fn run(s: NodeView, kinds: Seq<MessageTypeView>) -> NodeView
    decreases kinds.len(),
{
    if kinds.len() == 0 {
        s
    } else {
        next_state(run(s, kinds.drop_last()), kinds.last())
    }
}

/// `n` requests for an identifier.
pub open spec fn generates(n: nat) -> Seq<MessageTypeView> {
    Seq::new(n, |i: int| MessageTypeView::Request(RequestView::Generate))
}

/// After any messages a node knows what it knew before and every value that
/// was delivered, and nothing else.
pub proof fn law_known_set_is_union(s: NodeView, kinds: Seq<MessageTypeView>)
    ensures
        run(s, kinds).messages_buffer == s.messages_buffer.union(all_carried(kinds)),
    decreases kinds.len(),
{
    if kinds.len() == 0 {
        assert(s.messages_buffer.union(Set::empty()) =~= s.messages_buffer);
    } else {
        law_known_set_is_union(s, kinds.drop_last());
        let before = run(s, kinds.drop_last());
        assert(run(s, kinds).messages_buffer =~= before.messages_buffer.union(
            carried(kinds.last()),
        ));
        assert(run(s, kinds).messages_buffer =~= s.messages_buffer.union(all_carried(kinds)));
    }
}

/// Merging is idempotent: two runs of deliveries that carry the same values,
/// in whatever order and however often repeated, leave a node knowing the
/// same set.
pub proof fn law_idempotent_merge(s: NodeView, a: Seq<MessageTypeView>, b: Seq<MessageTypeView>)
    requires
        all_carried(a) == all_carried(b),
    ensures
        run(s, a).messages_buffer == run(s, b).messages_buffer,
{
    law_known_set_is_union(s, a);
    law_known_set_is_union(s, b);
}

/// The known set only grows.
pub proof fn law_known_set_grows(s: NodeView, kind: MessageTypeView)
    ensures
        s.messages_buffer.subset_of(next_state(s, kind).messages_buffer),
{
}

/// Every response names the request it answers: it goes back to the sender
/// and its `in_reply_to` is the request's id.
pub proof fn law_reply_correlation(s: NodeView, req: MessageView)
    requires
        req.body._type is Request,
        !(req.body._type->Request_0 is Gossip),
    ensures
        outgoing(s, req).len() >= 1,
        outgoing(s, req)[0].body.in_reply_to == req.body.msg_id,
        outgoing(s, req)[0].dest == req.src,
        outgoing(s, req)[0].src == req.dest,
{
}

/// A node that is not its own neighbor and lists no name twice stays so
/// whatever it is sent, and a fresh node is so.
pub proof fn law_neighbors_exclude_self(s: NodeView, kind: MessageTypeView)
    requires
        s.wf(),
    ensures
        next_state(s, kind).wf(),
        NodeView::fresh().wf(),
{
    match kind {
        MessageTypeView::Request(RequestView::Init { node_id, node_ids }) => {
            lemma_peers_among(node_ids, node_id);
        },
        MessageTypeView::Request(RequestView::Topology { topology }) => {
            match links_of(topology, s.node_id) {
                Some(listed) => {
                    lemma_peers_among(listed, s.node_id);
                    lemma_joined_members(s.topology, listed);
                },
                None => {},
            }
        },
        _ => {},
    }
}

/// The peers among `listed` are the listed names other than `id`, each once.
pub proof fn lemma_peers_among(listed: Seq<Seq<char>>, id: Seq<char>)
    ensures
        peers_among(listed, id).no_duplicates(),
        !peers_among(listed, id).contains(id),
        forall|n: Seq<char>| peers_among(listed, id).contains(n) <==> listed.contains(n) && n != id,
{
    lemma_without_excludes(listed, id);
    lemma_joined_members(Seq::empty(), without(listed, id));
    assert(!Seq::<Seq<char>>::empty().contains(id));
    assert forall|n: Seq<char>| peers_among(listed, id).contains(n) <==> listed.contains(n) && n
        != id by {
        assert(!Seq::<Seq<char>>::empty().contains(n));
    }
}

/// A topology scopes the neighbors: once a node is told a topology that
/// lists it, its neighbors are exactly the nodes listed for it, itself left
/// out.
pub proof fn law_topology_scoping(s: NodeView, topology: Seq<(Seq<char>, Seq<Seq<char>>)>)
    requires
        links_of(topology, s.node_id) is Some,
    ensures
        ({
            let listed = links_of(topology, s.node_id)->0;
            let after = next_state(
                s,
                MessageTypeView::Request(RequestView::Topology { topology }),
            );
            &&& after.neighbors.no_duplicates()
            &&& forall|n: Seq<char>|
                after.neighbors.contains(n) <==> listed.contains(n) && n != s.node_id
        }),
{
    lemma_peers_among(links_of(topology, s.node_id)->0, s.node_id);
}

/// `n` requests for an identifier advance the counter by `n` and change
/// nothing else.
pub proof fn lemma_run_generates(s: NodeView, n: nat)
    requires
        s.id + n <= usize::MAX,
    ensures
        run(s, generates(n)) == (NodeView { id: (s.id + n) as usize, ..s }),
    decreases n,
{
    if n > 0 {
        assert(generates(n).drop_last() =~= generates((n - 1) as nat));
        lemma_run_generates(s, (n - 1) as nat);
    }
}

/// Identifiers count up: the `k`-th of consecutive requests for an
/// identifier is answered with the node's name, a hyphen and the counter's
/// start plus `k`, so a fresh node hands out 1, 2, 3 and so on.
pub proof fn law_generated_ids_count_up(s: NodeView, req: MessageView, k: nat)
    requires
        k >= 1,
        s.id + k <= usize::MAX,
        req.body._type == MessageTypeView::Request(RequestView::Generate),
    ensures
        outgoing(run(s, generates((k - 1) as nat)), req)[0].body._type
            == MessageTypeView::Response(
            ResponseView::GenerateOk { id: generated_id(s.node_id, (s.id + k) as nat) },
        ),
{
    lemma_run_generates(s, (k - 1) as nat);
}

/// Identifiers are unique: what a node hands out at two different counter
/// values differs.
pub proof fn law_generated_ids_unique(s: NodeView, j: usize, k: usize)
    requires
        j != k,
    ensures
        answer(NodeView { id: j, ..s }, RequestView::Generate) != answer(
            NodeView { id: k, ..s },
            RequestView::Generate,
        ),
{
    if generated_id(s.node_id, j as nat) == generated_id(s.node_id, k as nat) {
        lemma_generated_id_injective(s.node_id, j as nat, k as nat);
    }
}

/// For the node that forwards single values: a value delivered twice, by
/// broadcast or by gossip, leaves the known set as one delivery does, and
/// two values may arrive in either order.
pub proof fn law_single_value_merge(s: node::NodeView, a: Envelope<PayloadView>, b: Envelope<
    PayloadView,
>)
    requires
        a.body.payload is Broadcast || a.body.payload is Gossip,
        b.body.payload is Broadcast || b.body.payload is Gossip,
    ensures
        node::next_state(node::next_state(s, a), a).messages == node::next_state(s, a).messages,
        node::next_state(node::next_state(s, a), b).messages == node::next_state(
            node::next_state(s, b),
            a,
        ).messages,
        s.messages.subset_of(node::next_state(s, a).messages),
{
    let once = node::next_state(s, a).messages;
    assert(node::next_state(node::next_state(s, a), a).messages =~= once);
    assert(node::next_state(node::next_state(s, a), b).messages =~= node::next_state(
        node::next_state(s, b),
        a,
    ).messages);
}

/// For the node that forwards single values: the first response to a
/// request goes back to its sender with the request's id as `in_reply_to`.
pub proof fn law_single_value_reply_correlation(s: node::NodeView, msg: Envelope<PayloadView>)
    requires
        node::responses(s, msg) is Some,
    ensures
        node::responses(s, msg)->0.len() >= 1,
        node::responses(s, msg)->0[0].body.in_reply_to == msg.body.msg_id,
        node::responses(s, msg)->0[0].dest == msg.src,
        node::responses(s, msg)->0[0].src == msg.dest,
{
}

/// For the controller: a value delivered twice leaves the known set as one
/// delivery does, two values may arrive in either order, and the known set
/// only grows.
pub proof fn law_controller_merge(s: StateView, a: Envelope<PayloadView>, b: Envelope<PayloadView>)
    requires
        a.body.payload is Broadcast || a.body.payload is Gossip,
        b.body.payload is Broadcast || b.body.payload is Gossip,
    ensures
        controller::next_state(controller::next_state(s, a), a).messages
            == controller::next_state(s, a).messages,
        controller::next_state(controller::next_state(s, a), b).messages
            == controller::next_state(controller::next_state(s, b), a).messages,
        s.messages.subset_of(controller::next_state(s, a).messages),
{
    let once = controller::next_state(s, a).messages;
    assert(controller::next_state(controller::next_state(s, a), a).messages =~= once);
    assert(controller::next_state(controller::next_state(s, a), b).messages
        =~= controller::next_state(controller::next_state(s, b), a).messages);
}

/// For the controller: the first response to a request goes back to its
/// sender with the request's id as `in_reply_to`.
pub proof fn law_controller_reply_correlation(s: StateView, msg: Envelope<PayloadView>)
    requires
        controller::responses(s, msg).len() >= 1,
    ensures
        controller::responses(s, msg)[0].body.in_reply_to == msg.body.msg_id,
        controller::responses(s, msg)[0].dest == msg.src,
        controller::responses(s, msg)[0].src == msg.dest,
{
}

/// An acknowledgement is ignored by every form of the node: the state stays
/// as it is and nothing is sent.
pub proof fn law_acknowledgements_ignored(
    s: NodeView,
    req: MessageView,
    single: node::NodeView,
    shared: StateView,
    msg: Envelope<PayloadView>,
)
    requires
        req.body._type is Response,
        !msg.body.payload.is_request(),
    ensures
        next_state(s, req.body._type) == s,
        outgoing(s, req).len() == 0,
        node::next_state(single, msg) == single,
        node::responses(single, msg) is None,
        controller::next_state(shared, msg) == shared,
        controller::responses(shared, msg).len() == 0,
{
}

/// A broadcast is answered first and then forwarded to the neighbors and to
/// nobody else: one gossip message each, in their order, with everything the
/// node knows. A well-formed node never gossips to itself.
pub proof fn law_fan_out(s: NodeView, req: MessageView, message: usize, i: int)
    requires
        req.body._type == MessageTypeView::Request(RequestView::Broadcast { message }),
        0 <= i < s.neighbors.len(),
    ensures
        outgoing(s, req).len() == 1 + s.neighbors.len(),
        outgoing(s, req)[0].body._type == MessageTypeView::Response(ResponseView::BroadcastOk),
        outgoing(s, req)[0].dest == req.src,
        outgoing(s, req)[1 + i] == gossip(
            s.node_id,
            s.neighbors[i],
            s.messages_buffer.insert(message),
        ),
        s.wf() ==> outgoing(s, req)[1 + i].dest != s.node_id,
{
    assert(s.neighbors.contains(s.neighbors[i]));
}

/// The codec round-trips: whatever document [`codec::encode_value`] lays a
/// message out as, [`codec::decode_value`] reads that message back out of it.
pub proof fn law_round_trip(
    msg: &Message<Payload>,
    doc: Json,
    back: Result<Message<Payload>, DecodeError>,
)
    requires
        call_ensures(codec::encode_value, (msg,), doc),
        call_ensures(codec::decode_value, (&doc,), back),
    ensures
        codec::outcome(back) == Ok::<Envelope<PayloadView>, DecodeError>(msg@),
{
}

/// The codec of the full node round-trips in the same way.
pub proof fn law_model_round_trip(
    msg: &model::Message,
    doc: Json,
    back: Result<model::Message, DecodeError>,
)
    requires
        call_ensures(wire::encode_value, (msg,), doc),
        call_ensures(wire::decode_value, (&doc,), back),
    ensures
        codec::outcome(back) == Ok::<MessageView, DecodeError>(msg@),
{
}

/// A tag that names no kind is refused: a body whose `type` is a text other
/// than the fourteen tags is no payload.
pub proof fn law_unknown_type(fields: Seq<(String, Json)>, tag: String)
    requires
        codec::member(fields, "type"@) == Some(Json::Text(tag)),
        codec::tag_kind(tag@) is None,
    ensures
        codec::decoded_payload(fields) == Err::<PayloadView, DecodeError>(DecodeError::UnknownType),
{
}

} // verus!
