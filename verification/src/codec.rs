//! The wire format: how a message is laid out as a JSON document, and back.
//!
//! A message is an object with the members `src`, `dest` and `body`. The body
//! is an object that holds the tag `type`, the ids `msg_id` and `in_reply_to`
//! where the message has them, and beside them the fields of the payload.

use crate::body::{Body, BodyView};
use crate::message::{Message, MessageView};
use crate::payload::{Links, LinksView, Payload, PayloadView};
use crate::sets::{from_vec, to_vec};
use vstd::prelude::*;
use vstd::string::StringExecFns;

verus! {

/// A JSON document, as far as the wire format reads it.
#[derive(Debug, PartialEq, Eq)]
pub enum Json {
    Null,
    /// A number that is an unsigned integer of at most 64 bits.
    Number(u64),
    Text(String),
    List(Vec<Json>),
    /// The members of an object, in the order in which they are written.
    Object(Vec<(String, Json)>),
    /// What the wire format has no use for: a boolean, a negative number, a
    /// fraction.
    Other,
}

/// Why a document is no message.
#[derive(Debug, Clone, Copy, PartialEq, Eq)]
pub enum DecodeError {
    /// The document, or its body, is not an object.
    Malformed,
    /// A member that the message or its kind needs is absent.
    MissingField,
    /// A member holds a value of the wrong kind.
    Mistyped,
    /// The tag names no kind of payload.
    UnknownType,
}

/// The value of the first member called `name`.
pub open spec fn member(fields: Seq<(String, Json)>, name: Seq<char>) -> Option<Json>
    decreases fields.len(),
{
    if fields.len() == 0 {
        None
    } else {
        match member(fields.drop_last(), name) {
            Some(value) => Some(value),
            None => if fields.last().0@ == name {
                Some(fields.last().1)
            } else {
                None
            },
        }
    }
}

/// A member that must be a text.
pub open spec fn as_text(value: Option<Json>) -> Result<Seq<char>, DecodeError> {
    match value {
        None => Err(DecodeError::MissingField),
        Some(Json::Text(text)) => Ok(text@),
        Some(_) => Err(DecodeError::Mistyped),
    }
}

/// A member that must be a number.
pub open spec fn as_number(value: Option<Json>) -> Result<usize, DecodeError> {
    match value {
        None => Err(DecodeError::MissingField),
        Some(Json::Number(n)) => if n <= usize::MAX {
            Ok(n as usize)
        } else {
            Err(DecodeError::Mistyped)
        },
        Some(_) => Err(DecodeError::Mistyped),
    }
}

/// A member that may be absent or null, and else must be a number.
pub open spec fn as_optional_number(value: Option<Json>) -> Result<Option<usize>, DecodeError> {
    match value {
        None => Ok(None),
        Some(Json::Null) => Ok(None),
        Some(other) => match as_number(Some(other)) {
            Ok(n) => Ok(Some(n)),
            Err(e) => Err(e),
        },
    }
}

/// The texts of a list, where every item is a text.
pub open spec fn texts(items: Seq<Json>) -> Option<Seq<Seq<char>>>
    decreases items.len(),
{
    if items.len() == 0 {
        Some(Seq::empty())
    } else {
        match (texts(items.drop_last()), items.last()) {
            (Some(head), Json::Text(text)) => Some(head.push(text@)),
            _ => None,
        }
    }
}

/// The numbers of a list, where every item is a number.
pub open spec fn numbers(items: Seq<Json>) -> Option<Seq<usize>>
    decreases items.len(),
{
    if items.len() == 0 {
        Some(Seq::empty())
    } else {
        match (numbers(items.drop_last()), as_number(Some(items.last()))) {
            (Some(head), Ok(n)) => Some(head.push(n)),
            _ => None,
        }
    }
}

/// The topology that the members of an object spell out, where every member
/// is a list of texts.
pub open spec fn links(entries: Seq<(String, Json)>) -> Option<LinksView>
    decreases entries.len(),
{
    if entries.len() == 0 {
        Some(Seq::empty())
    } else {
        match (links(entries.drop_last()), as_texts(Some(entries.last().1))) {
            (Some(head), Ok(peers)) => Some(head.push((entries.last().0@, peers))),
            _ => None,
        }
    }
}

/// A member that must be a list of texts.
pub open spec fn as_texts(value: Option<Json>) -> Result<Seq<Seq<char>>, DecodeError> {
    match value {
        None => Err(DecodeError::MissingField),
        Some(Json::List(items)) => match texts(items@) {
            Some(found) => Ok(found),
            None => Err(DecodeError::Mistyped),
        },
        Some(_) => Err(DecodeError::Mistyped),
    }
}

/// A member that must be a list of numbers, read as a set.
pub open spec fn as_number_set(value: Option<Json>) -> Result<Set<usize>, DecodeError> {
    match value {
        None => Err(DecodeError::MissingField),
        Some(Json::List(items)) => match numbers(items@) {
            Some(found) => Ok(found.to_set()),
            None => Err(DecodeError::Mistyped),
        },
        Some(_) => Err(DecodeError::Mistyped),
    }
}

/// A member that must be an object of lists of texts.
pub open spec fn as_links(value: Option<Json>) -> Result<LinksView, DecodeError> {
    match value {
        None => Err(DecodeError::MissingField),
        Some(Json::Object(entries)) => match links(entries@) {
            Some(found) => Ok(found),
            None => Err(DecodeError::Mistyped),
        },
        Some(_) => Err(DecodeError::Mistyped),
    }
}

/// Looks up the first member called `name`.
pub fn find<'a>(fields: &'a Vec<(String, Json)>, name: &str) -> (r: Option<&'a Json>)
    ensures
        match r {
            Some(value) => member(fields@, name@) == Some(*value),
            None => member(fields@, name@) is None,
        },
{
    let key = String::from_str(name);
    let mut i: usize = 0;
    while i < fields.len()
        invariant
            i <= fields.len(),
            key@ == name@,
            member(fields@.take(i as int), name@) is None,
        decreases fields.len() - i,
    {
        assert(fields@.take(i as int + 1).drop_last() =~= fields@.take(i as int));
        if fields[i].0 == key {
            proof {
                lemma_member_found(fields@, name@, i as int + 1);
            }
            return Some(&fields[i].1);
        }
        i += 1;
    }
    assert(fields@.take(fields.len() as int) =~= fields@);
    None
}

/// What is found among the first `k` members is found among all.
pub proof fn lemma_member_found(fields: Seq<(String, Json)>, name: Seq<char>, k: int)
    requires
        0 <= k <= fields.len(),
        member(fields.take(k), name) is Some,
    ensures
        member(fields, name) == member(fields.take(k), name),
    decreases fields.len() - k,
{
    if k < fields.len() {
        assert(fields.take(k + 1).drop_last() =~= fields.take(k));
        lemma_member_found(fields, name, k + 1);
    } else {
        assert(fields.take(k) =~= fields);
    }
}

/// Reads a member that must be a text.
pub fn read_text(value: Option<&Json>) -> (r: Result<String, DecodeError>)
    ensures
        match r {
            Ok(text) => as_text(unref(value)) == Ok::<Seq<char>, DecodeError>(text@),
            Err(e) => as_text(unref(value)) == Err::<Seq<char>, DecodeError>(e),
        },
{
    match value {
        None => Err(DecodeError::MissingField),
        Some(Json::Text(text)) => Ok(text.clone()),
        Some(_) => Err(DecodeError::Mistyped),
    }
}

/// The value behind an optional reference.
pub open spec fn unref(value: Option<&Json>) -> Option<Json> {
    match value {
        Some(v) => Some(*v),
        None => None,
    }
}

/// Reads a member that must be a number.
pub fn read_number(value: Option<&Json>) -> (r: Result<usize, DecodeError>)
    ensures
        r == as_number(unref(value)),
{
    match value {
        None => Err(DecodeError::MissingField),
        Some(Json::Number(n)) => {
            if *n <= usize::MAX as u64 {
                Ok(*n as usize)
            } else {
                Err(DecodeError::Mistyped)
            }
        },
        Some(_) => Err(DecodeError::Mistyped),
    }
}

/// Reads a member that may be absent or null, and else must be a number.
pub fn read_optional_number(value: Option<&Json>) -> (r: Result<Option<usize>, DecodeError>)
    ensures
        r == as_optional_number(unref(value)),
{
    match value {
        None => Ok(None),
        Some(Json::Null) => Ok(None),
        Some(other) => match read_number(Some(other)) {
            Ok(n) => Ok(Some(n)),
            Err(e) => Err(e),
        },
    }
}

/// Reads a member that must be a list of texts.
pub fn read_texts(value: Option<&Json>) -> (r: Result<Vec<String>, DecodeError>)
    ensures
        match r {
            Ok(found) => as_texts(unref(value)) == Ok::<Seq<Seq<char>>, DecodeError>(
                found.deep_view(),
            ),
            Err(e) => as_texts(unref(value)) == Err::<Seq<Seq<char>>, DecodeError>(e),
        },
{
    match value {
        None => Err(DecodeError::MissingField),
        Some(Json::List(items)) => {
            let mut out: Vec<String> = Vec::new();
            let mut i: usize = 0;
            assert(items@.take(0) =~= Seq::<Json>::empty());
            while i < items.len()
                invariant
                    i <= items.len(),
                    unref(value) == Some(Json::List(*items)),
                    texts(items@.take(i as int)) == Some(out.deep_view()),
                decreases items.len() - i,
            {
                assert(items@.take(i as int + 1).drop_last() =~= items@.take(i as int));
                match &items[i] {
                    Json::Text(text) => {
                        let ghost before = out.deep_view();
                        out.push(text.clone());
                        assert(out.deep_view() =~= before.push(text@));
                    },
                    _ => {
                        proof {
                            assert(items@.take(i as int + 1).last() == items@[i as int]);
                            assert(texts(items@.take(i as int + 1)) is None);
                            lemma_texts_stay_none(items@, i as int + 1);
                        }
                        return Err(DecodeError::Mistyped);
                    },
                }
                i += 1;
            }
            assert(items@.take(items.len() as int) =~= items@);
            Ok(out)
        },
        Some(_) => Err(DecodeError::Mistyped),
    }
}

/// A list whose first `k` items are not all texts is not a list of texts.
pub proof fn lemma_texts_stay_none(items: Seq<Json>, k: int)
    requires
        0 <= k <= items.len(),
        texts(items.take(k)) is None,
    ensures
        texts(items) is None,
    decreases items.len() - k,
{
    if k < items.len() {
        assert(items.take(k + 1).drop_last() =~= items.take(k));
        lemma_texts_stay_none(items, k + 1);
    } else {
        assert(items.take(k) =~= items);
    }
}

/// A list whose first `k` items are not all numbers is not a list of numbers.
pub proof fn lemma_numbers_stay_none(items: Seq<Json>, k: int)
    requires
        0 <= k <= items.len(),
        numbers(items.take(k)) is None,
    ensures
        numbers(items) is None,
    decreases items.len() - k,
{
    if k < items.len() {
        assert(items.take(k + 1).drop_last() =~= items.take(k));
        lemma_numbers_stay_none(items, k + 1);
    } else {
        assert(items.take(k) =~= items);
    }
}

/// An object whose first `k` members are not all lists of texts spells out no
/// topology.
pub proof fn lemma_links_stay_none(entries: Seq<(String, Json)>, k: int)
    requires
        0 <= k <= entries.len(),
        links(entries.take(k)) is None,
    ensures
        links(entries) is None,
    decreases entries.len() - k,
{
    if k < entries.len() {
        assert(entries.take(k + 1).drop_last() =~= entries.take(k));
        lemma_links_stay_none(entries, k + 1);
    } else {
        assert(entries.take(k) =~= entries);
    }
}

/// Reads a member that must be a list of numbers, as a set.
pub fn read_number_set(value: Option<&Json>) -> (r: Result<std::collections::HashSet<usize>, DecodeError>)
    ensures
        match r {
            Ok(found) => as_number_set(unref(value)) == Ok::<Set<usize>, DecodeError>(found@),
            Err(e) => as_number_set(unref(value)) == Err::<Set<usize>, DecodeError>(e),
        },
{
    match value {
        None => Err(DecodeError::MissingField),
        Some(Json::List(items)) => {
            let mut out: Vec<usize> = Vec::new();
            let mut i: usize = 0;
            assert(items@.take(0) =~= Seq::<Json>::empty());
            while i < items.len()
                invariant
                    i <= items.len(),
                    unref(value) == Some(Json::List(*items)),
                    numbers(items@.take(i as int)) == Some(out@),
                decreases items.len() - i,
            {
                assert(items@.take(i as int + 1).drop_last() =~= items@.take(i as int));
                match read_number(Some(&items[i])) {
                    Ok(n) => {
                        out.push(n);
                    },
                    Err(_) => {
                        proof {
                            assert(items@.take(i as int + 1).last() == items@[i as int]);
                            assert(numbers(items@.take(i as int + 1)) is None);
                            lemma_numbers_stay_none(items@, i as int + 1);
                        }
                        return Err(DecodeError::Mistyped);
                    },
                }
                i += 1;
            }
            assert(items@.take(items.len() as int) =~= items@);
            Ok(from_vec(&out))
        },
        Some(_) => Err(DecodeError::Mistyped),
    }
}

/// Reads a member that must be an object of lists of texts.
pub fn read_links(value: Option<&Json>) -> (r: Result<Links, DecodeError>)
    ensures
        match r {
            Ok(found) => as_links(unref(value)) == Ok::<LinksView, DecodeError>(found.deep_view()),
            Err(e) => as_links(unref(value)) == Err::<LinksView, DecodeError>(e),
        },
{
    match value {
        None => Err(DecodeError::MissingField),
        Some(Json::Object(entries)) => {
            let mut out: Links = Vec::new();
            let mut i: usize = 0;
            assert(entries@.take(0) =~= Seq::<(String, Json)>::empty());
            assert(out.deep_view() =~= Seq::empty());
            while i < entries.len()
                invariant
                    i <= entries.len(),
                    unref(value) == Some(Json::Object(*entries)),
                    links(entries@.take(i as int)) == Some(out.deep_view()),
                decreases entries.len() - i,
            {
                assert(entries@.take(i as int + 1).drop_last() =~= entries@.take(i as int));
                match read_texts(Some(&entries[i].1)) {
                    Ok(peers) => {
                        let ghost before = out.deep_view();
                        let name = entries[i].0.clone();
                        out.push((name, peers));
                        assert(out.deep_view() =~= before.push(
                            (entries@[i as int].0@, peers.deep_view()),
                        ));
                    },
                    Err(_) => {
                        proof {
                            assert(entries@.take(i as int + 1).last() == entries@[i as int]);
                            assert(links(entries@.take(i as int + 1)) is None);
                            lemma_links_stay_none(entries@, i as int + 1);
                        }
                        return Err(DecodeError::Mistyped);
                    },
                }
                i += 1;
            }
            assert(entries@.take(entries.len() as int) =~= entries@);
            Ok(out)
        },
        Some(_) => Err(DecodeError::Mistyped),
    }
}

/// The kinds of payload, without their fields.
pub enum Kind {
    Echo,
    EchoOk,
    Init,
    InitOk,
    Generate,
    GenerateOk,
    Topology,
    TopologyOk,
    Broadcast,
    BroadcastOk,
    Read,
    ReadOk,
    Gossip,
    GossipOk,
}

/// The kind that a tag names: the kind's name in lower case, its words
/// joined by an underscore.
pub open spec fn tag_kind(tag: Seq<char>) -> Option<Kind> {
    if tag == "echo"@ {
        Some(Kind::Echo)
    } else if tag == "echo_ok"@ {
        Some(Kind::EchoOk)
    } else if tag == "init"@ {
        Some(Kind::Init)
    } else if tag == "init_ok"@ {
        Some(Kind::InitOk)
    } else if tag == "generate"@ {
        Some(Kind::Generate)
    } else if tag == "generate_ok"@ {
        Some(Kind::GenerateOk)
    } else if tag == "topology"@ {
        Some(Kind::Topology)
    } else if tag == "topology_ok"@ {
        Some(Kind::TopologyOk)
    } else if tag == "broadcast"@ {
        Some(Kind::Broadcast)
    } else if tag == "broadcast_ok"@ {
        Some(Kind::BroadcastOk)
    } else if tag == "read"@ {
        Some(Kind::Read)
    } else if tag == "read_ok"@ {
        Some(Kind::ReadOk)
    } else if tag == "gossip"@ {
        Some(Kind::Gossip)
    } else if tag == "gossip_ok"@ {
        Some(Kind::GossipOk)
    } else {
        None
    }
}

/// The payload of kind `kind` that the members of a body spell out.
pub open spec fn decoded_fields(kind: Kind, fields: Seq<(String, Json)>) -> Result<
    PayloadView,
    DecodeError,
> {
    match kind {
        Kind::Echo => match as_text(member(fields, "echo"@)) {
            Ok(echo) => Ok(PayloadView::Echo { echo }),
            Err(e) => Err(e),
        },
        Kind::EchoOk => match as_text(member(fields, "echo"@)) {
            Ok(echo) => Ok(PayloadView::EchoOk { echo }),
            Err(e) => Err(e),
        },
        Kind::Init => match as_text(member(fields, "node_id"@)) {
            Err(e) => Err(e),
            Ok(node_id) => match as_texts(member(fields, "node_ids"@)) {
                Ok(node_ids) => Ok(PayloadView::Init { node_id, node_ids }),
                Err(e) => Err(e),
            },
        },
        Kind::InitOk => Ok(PayloadView::InitOk),
        Kind::Generate => Ok(PayloadView::Generate),
        Kind::GenerateOk => match as_text(member(fields, "id"@)) {
            Ok(id) => Ok(PayloadView::GenerateOk { id }),
            Err(e) => Err(e),
        },
        Kind::Topology => match as_links(member(fields, "topology"@)) {
            Ok(topology) => Ok(PayloadView::Topology { topology }),
            Err(e) => Err(e),
        },
        Kind::TopologyOk => Ok(PayloadView::TopologyOk),
        Kind::Broadcast => match as_number(member(fields, "message"@)) {
            Ok(message) => Ok(PayloadView::Broadcast { message }),
            Err(e) => Err(e),
        },
        Kind::BroadcastOk => Ok(PayloadView::BroadcastOk),
        Kind::Read => Ok(PayloadView::Read),
        Kind::ReadOk => match as_number_set(member(fields, "messages"@)) {
            Ok(messages) => Ok(PayloadView::ReadOk { messages }),
            Err(e) => Err(e),
        },
        Kind::Gossip => match as_number(member(fields, "message"@)) {
            Ok(message) => Ok(PayloadView::Gossip { message }),
            Err(e) => Err(e),
        },
        Kind::GossipOk => Ok(PayloadView::GossipOk),
    }
}

/// The payload that the members of a body spell out: of the kind that the
/// tag `type` names, with the fields of that kind.
pub open spec fn decoded_payload(fields: Seq<(String, Json)>) -> Result<PayloadView, DecodeError> {
    match as_text(member(fields, "type"@)) {
        Err(e) => Err(e),
        Ok(tag) => match tag_kind(tag) {
            None => Err(DecodeError::UnknownType),
            Some(kind) => decoded_fields(kind, fields),
        },
    }
}

/// The body that the members of an object spell out. A wrong id is reported
/// before a wrong payload.
pub open spec fn decoded_body(fields: Seq<(String, Json)>) -> Result<
    BodyView<PayloadView>,
    DecodeError,
> {
    match as_optional_number(member(fields, "msg_id"@)) {
        Err(e) => Err(e),
        Ok(msg_id) => match as_optional_number(member(fields, "in_reply_to"@)) {
            Err(e) => Err(e),
            Ok(in_reply_to) => match decoded_payload(fields) {
                Err(e) => Err(e),
                Ok(payload) => Ok(BodyView { msg_id, in_reply_to, payload }),
            },
        },
    }
}

/// The message that a document spells out, or why it spells out none.
/// Sender, receiver and body are read in this order, and the first failure
/// is reported.
pub open spec fn decoded(doc: Json) -> Result<MessageView<PayloadView>, DecodeError> {
    match doc {
        Json::Object(fields) => match as_text(member(fields@, "src"@)) {
            Err(e) => Err(e),
            Ok(src) => match as_text(member(fields@, "dest"@)) {
                Err(e) => Err(e),
                Ok(dest) => match member(fields@, "body"@) {
                    None => Err(DecodeError::MissingField),
                    Some(Json::Object(body)) => match decoded_body(body@) {
                        Err(e) => Err(e),
                        Ok(body) => Ok(MessageView { src, dest, body }),
                    },
                    Some(_) => Err(DecodeError::Malformed),
                },
            },
        },
        _ => Err(DecodeError::Malformed),
    }
}

/// What a decoder returns, by its model.
pub open spec fn outcome<T: View>(r: Result<T, DecodeError>) -> Result<T::V, DecodeError> {
    match r {
        Ok(value) => Ok(value@),
        Err(e) => Err(e),
    }
}

/// Tells whether `tag` reads `name`.
pub fn tag_is(tag: &String, name: &str) -> (r: bool)
    ensures
        r == (tag@ == name@),
{
    let other = String::from_str(name);
    *tag == other
}

/// Reads the payload out of the members of a body.
pub fn decode_payload(fields: &Vec<(String, Json)>) -> (r: Result<Payload, DecodeError>)
    ensures
        outcome(r) == decoded_payload(fields@),
{
    let tag = match read_text(find(fields, "type")) {
        Ok(tag) => tag,
        Err(e) => {
            return Err(e);
        },
    };
    if tag_is(&tag, "echo") {
        match read_text(find(fields, "echo")) {
            Ok(echo) => Ok(Payload::Echo { echo }),
            Err(e) => Err(e),
        }
    } else if tag_is(&tag, "echo_ok") {
        match read_text(find(fields, "echo")) {
            Ok(echo) => Ok(Payload::EchoOk { echo }),
            Err(e) => Err(e),
        }
    } else if tag_is(&tag, "init") {
        match read_text(find(fields, "node_id")) {
            Err(e) => Err(e),
            Ok(node_id) => match read_texts(find(fields, "node_ids")) {
                Ok(node_ids) => Ok(Payload::Init { node_id, node_ids }),
                Err(e) => Err(e),
            },
        }
    } else if tag_is(&tag, "init_ok") {
        Ok(Payload::InitOk)
    } else if tag_is(&tag, "generate") {
        Ok(Payload::Generate)
    } else if tag_is(&tag, "generate_ok") {
        match read_text(find(fields, "id")) {
            Ok(id) => Ok(Payload::GenerateOk { id }),
            Err(e) => Err(e),
        }
    } else if tag_is(&tag, "topology") {
        match read_links(find(fields, "topology")) {
            Ok(topology) => Ok(Payload::Topology { topology }),
            Err(e) => Err(e),
        }
    } else if tag_is(&tag, "topology_ok") {
        Ok(Payload::TopologyOk)
    } else if tag_is(&tag, "broadcast") {
        match read_number(find(fields, "message")) {
            Ok(message) => Ok(Payload::Broadcast { message }),
            Err(e) => Err(e),
        }
    } else if tag_is(&tag, "broadcast_ok") {
        Ok(Payload::BroadcastOk)
    } else if tag_is(&tag, "read") {
        Ok(Payload::Read)
    } else if tag_is(&tag, "read_ok") {
        match read_number_set(find(fields, "messages")) {
            Ok(messages) => Ok(Payload::ReadOk { messages }),
            Err(e) => Err(e),
        }
    } else if tag_is(&tag, "gossip") {
        match read_number(find(fields, "message")) {
            Ok(message) => Ok(Payload::Gossip { message }),
            Err(e) => Err(e),
        }
    } else if tag_is(&tag, "gossip_ok") {
        Ok(Payload::GossipOk)
    } else {
        Err(DecodeError::UnknownType)
    }
}

/// Reads a body out of the members of an object.
pub fn decode_body(fields: &Vec<(String, Json)>) -> (r: Result<Body<Payload>, DecodeError>)
    ensures
        outcome(r) == decoded_body(fields@),
{
    let msg_id = match read_optional_number(find(fields, "msg_id")) {
        Ok(id) => id,
        Err(e) => {
            return Err(e);
        },
    };
    let in_reply_to = match read_optional_number(find(fields, "in_reply_to")) {
        Ok(id) => id,
        Err(e) => {
            return Err(e);
        },
    };
    match decode_payload(fields) {
        Ok(payload) => Ok(Body { msg_id, in_reply_to, payload }),
        Err(e) => Err(e),
    }
}

/// Reads a message out of a document. Fails where the document or its body
/// is no object, where `src`, `dest`, `body`, `type` or a field of the kind
/// is absent or of the wrong kind, and where the tag names no kind.
pub fn decode_value(doc: &Json) -> (r: Result<Message<Payload>, DecodeError>)
    ensures
        outcome(r) == decoded(*doc),
{
    match doc {
        Json::Object(fields) => {
            let src = match read_text(find(fields, "src")) {
                Ok(src) => src,
                Err(e) => {
                    return Err(e);
                },
            };
            let dest = match read_text(find(fields, "dest")) {
                Ok(dest) => dest,
                Err(e) => {
                    return Err(e);
                },
            };
            match find(fields, "body") {
                None => Err(DecodeError::MissingField),
                Some(Json::Object(body)) => match decode_body(body) {
                    Ok(body) => Ok(Message { src, dest, body }),
                    Err(e) => Err(e),
                },
                Some(_) => Err(DecodeError::Malformed),
            }
        },
        _ => Err(DecodeError::Malformed),
    }
}

/// A member added at the end is found unless an earlier member has its name.
pub broadcast proof fn lemma_member_push(
    fields: Seq<(String, Json)>,
    entry: (String, Json),
    name: Seq<char>,
)
    ensures
        #[trigger] member(fields.push(entry), name) == (match member(fields, name) {
            Some(value) => Some(value),
            None => if entry.0@ == name {
                Some(entry.1)
            } else {
                None::<Json>
            },
        }),
{
    assert(fields.push(entry).drop_last() =~= fields);
}

/// Among members of other names, `name` is not found.
pub proof fn lemma_member_absent(fields: Seq<(String, Json)>, name: Seq<char>)
    requires
        forall|i: int| 0 <= i < fields.len() ==> (#[trigger] fields[i]).0@ != name,
    ensures
        member(fields, name) is None,
    decreases fields.len(),
{
    if fields.len() > 0 {
        lemma_member_absent(fields.drop_last(), name);
    }
}

/// The names of the wire format are what they read.
pub proof fn lemma_names()
    ensures
        "src"@ == seq!['s', 'r', 'c'],
        "dest"@ == seq!['d', 'e', 's', 't'],
        "body"@ == seq!['b', 'o', 'd', 'y'],
        "type"@ == seq!['t', 'y', 'p', 'e'],
        "msg_id"@ == seq!['m', 's', 'g', '_', 'i', 'd'],
        "in_reply_to"@ == seq!['i', 'n', '_', 'r', 'e', 'p', 'l', 'y', '_', 't', 'o'],
        "echo"@ == seq!['e', 'c', 'h', 'o'],
        "node_id"@ == seq!['n', 'o', 'd', 'e', '_', 'i', 'd'],
        "node_ids"@ == seq!['n', 'o', 'd', 'e', '_', 'i', 'd', 's'],
        "id"@ == seq!['i', 'd'],
        "message"@ == seq!['m', 'e', 's', 's', 'a', 'g', 'e'],
        "messages"@ == seq!['m', 'e', 's', 's', 'a', 'g', 'e', 's'],
        "echo_ok"@ == seq!['e', 'c', 'h', 'o', '_', 'o', 'k'],
        "init"@ == seq!['i', 'n', 'i', 't'],
        "init_ok"@ == seq!['i', 'n', 'i', 't', '_', 'o', 'k'],
        "generate"@ == seq!['g', 'e', 'n', 'e', 'r', 'a', 't', 'e'],
        "generate_ok"@ == seq!['g', 'e', 'n', 'e', 'r', 'a', 't', 'e', '_', 'o', 'k'],
        "topology"@ == seq!['t', 'o', 'p', 'o', 'l', 'o', 'g', 'y'],
        "topology_ok"@ == seq!['t', 'o', 'p', 'o', 'l', 'o', 'g', 'y', '_', 'o', 'k'],
        "broadcast"@ == seq!['b', 'r', 'o', 'a', 'd', 'c', 'a', 's', 't'],
        "broadcast_ok"@ == seq!['b', 'r', 'o', 'a', 'd', 'c', 'a', 's', 't', '_', 'o', 'k'],
        "read"@ == seq!['r', 'e', 'a', 'd'],
        "read_ok"@ == seq!['r', 'e', 'a', 'd', '_', 'o', 'k'],
        "gossip"@ == seq!['g', 'o', 's', 's', 'i', 'p'],
        "gossip_ok"@ == seq!['g', 'o', 's', 's', 'i', 'p', '_', 'o', 'k'],
        "src"@.len() == 3,
        "dest"@.len() == 4,
        "body"@.len() == 4,
        "type"@.len() == 4,
        "msg_id"@.len() == 6,
        "in_reply_to"@.len() == 11,
        "echo"@.len() == 4,
        "node_id"@.len() == 7,
        "node_ids"@.len() == 8,
        "id"@.len() == 2,
        "message"@.len() == 7,
        "messages"@.len() == 8,
        "echo_ok"@.len() == 7,
        "init"@.len() == 4,
        "init_ok"@.len() == 7,
        "generate"@.len() == 8,
        "generate_ok"@.len() == 11,
        "topology"@.len() == 8,
        "topology_ok"@.len() == 11,
        "broadcast"@.len() == 9,
        "broadcast_ok"@.len() == 12,
        "read"@.len() == 4,
        "read_ok"@.len() == 7,
        "gossip"@.len() == 6,
        "gossip_ok"@.len() == 9,
{
    reveal_strlit("src");
    reveal_strlit("dest");
    reveal_strlit("body");
    reveal_strlit("type");
    reveal_strlit("msg_id");
    reveal_strlit("in_reply_to");
    reveal_strlit("echo");
    reveal_strlit("node_id");
    reveal_strlit("node_ids");
    reveal_strlit("id");
    reveal_strlit("message");
    reveal_strlit("messages");
    reveal_strlit("echo_ok");
    reveal_strlit("init");
    reveal_strlit("init_ok");
    reveal_strlit("generate");
    reveal_strlit("generate_ok");
    reveal_strlit("topology");
    reveal_strlit("topology_ok");
    reveal_strlit("broadcast");
    reveal_strlit("broadcast_ok");
    reveal_strlit("read");
    reveal_strlit("read_ok");
    reveal_strlit("gossip");
    reveal_strlit("gossip_ok");
    assert("src"@ =~= seq!['s', 'r', 'c']);
    assert("dest"@ =~= seq!['d', 'e', 's', 't']);
    assert("body"@ =~= seq!['b', 'o', 'd', 'y']);
    assert("type"@ =~= seq!['t', 'y', 'p', 'e']);
    assert("msg_id"@ =~= seq!['m', 's', 'g', '_', 'i', 'd']);
    assert("in_reply_to"@ =~= seq!['i', 'n', '_', 'r', 'e', 'p', 'l', 'y', '_', 't', 'o']);
    assert("echo"@ =~= seq!['e', 'c', 'h', 'o']);
    assert("node_id"@ =~= seq!['n', 'o', 'd', 'e', '_', 'i', 'd']);
    assert("node_ids"@ =~= seq!['n', 'o', 'd', 'e', '_', 'i', 'd', 's']);
    assert("id"@ =~= seq!['i', 'd']);
    assert("message"@ =~= seq!['m', 'e', 's', 's', 'a', 'g', 'e']);
    assert("messages"@ =~= seq!['m', 'e', 's', 's', 'a', 'g', 'e', 's']);
    assert("echo_ok"@ =~= seq!['e', 'c', 'h', 'o', '_', 'o', 'k']);
    assert("init"@ =~= seq!['i', 'n', 'i', 't']);
    assert("init_ok"@ =~= seq!['i', 'n', 'i', 't', '_', 'o', 'k']);
    assert("generate"@ =~= seq!['g', 'e', 'n', 'e', 'r', 'a', 't', 'e']);
    assert("generate_ok"@ =~= seq!['g', 'e', 'n', 'e', 'r', 'a', 't', 'e', '_', 'o', 'k']);
    assert("topology"@ =~= seq!['t', 'o', 'p', 'o', 'l', 'o', 'g', 'y']);
    assert("topology_ok"@ =~= seq!['t', 'o', 'p', 'o', 'l', 'o', 'g', 'y', '_', 'o', 'k']);
    assert("broadcast"@ =~= seq!['b', 'r', 'o', 'a', 'd', 'c', 'a', 's', 't']);
    assert("broadcast_ok"@ =~= seq!['b', 'r', 'o', 'a', 'd', 'c', 'a', 's', 't', '_', 'o', 'k']);
    assert("read"@ =~= seq!['r', 'e', 'a', 'd']);
    assert("read_ok"@ =~= seq!['r', 'e', 'a', 'd', '_', 'o', 'k']);
    assert("gossip"@ =~= seq!['g', 'o', 's', 's', 'i', 'p']);
    assert("gossip_ok"@ =~= seq!['g', 'o', 's', 's', 'i', 'p', '_', 'o', 'k']);
}

/// A member called `name` with the value `value`.
pub fn entry(name: &str, value: Json) -> (r: (String, Json))
    ensures
        r.0@ == name@,
        r.1 == value,
{
    (String::from_str(name), value)
}

/// Lays out a list of names.
pub fn encode_texts(names: &Vec<String>) -> (r: Json)
    ensures
        as_texts(Some(r)) == Ok::<Seq<Seq<char>>, DecodeError>(names.deep_view()),
{
    let mut items: Vec<Json> = Vec::new();
    let mut i: usize = 0;
    assert(names.deep_view().take(0) =~= Seq::<Seq<char>>::empty());
    while i < names.len()
        invariant
            i <= names.len(),
            texts(items@) == Some(names.deep_view().take(i as int)),
        decreases names.len() - i,
    {
        let ghost before = items@;
        items.push(Json::Text(names[i].clone()));
        assert(items@.drop_last() =~= before);
        assert(names.deep_view().take(i as int + 1) =~= names.deep_view().take(i as int).push(
            names[i as int]@,
        ));
        i += 1;
    }
    assert(names.deep_view().take(names.len() as int) =~= names.deep_view());
    Json::List(items)
}

/// Lays out a set of values, each once, in no promised order.
pub fn encode_numbers(values: &std::collections::HashSet<usize>) -> (r: Json)
    ensures
        as_number_set(Some(r)) == Ok::<Set<usize>, DecodeError>(values@),
{
    let listed = to_vec(values);
    let mut items: Vec<Json> = Vec::new();
    let mut i: usize = 0;
    assert(listed@.take(0) =~= Seq::<usize>::empty());
    while i < listed.len()
        invariant
            i <= listed.len(),
            numbers(items@) == Some(listed@.take(i as int)),
        decreases listed.len() - i,
    {
        let ghost before = items@;
        items.push(Json::Number(listed[i] as u64));
        assert(items@.drop_last() =~= before);
        assert(listed@.take(i as int + 1) =~= listed@.take(i as int).push(listed@[i as int]));
        i += 1;
    }
    assert(listed@.take(listed.len() as int) =~= listed@);
    Json::List(items)
}

/// Lays out a topology: one member per listed node.
pub fn encode_links(topology: &Links) -> (r: Json)
    ensures
        as_links(Some(r)) == Ok::<LinksView, DecodeError>(topology.deep_view()),
{
    let mut entries: Vec<(String, Json)> = Vec::new();
    let mut i: usize = 0;
    assert(topology.deep_view().take(0) =~= Seq::empty());
    while i < topology.len()
        invariant
            i <= topology.len(),
            links(entries@) == Some(topology.deep_view().take(i as int)),
        decreases topology.len() - i,
    {
        let ghost before = entries@;
        let peers = encode_texts(&topology[i].1);
        entries.push((topology[i].0.clone(), peers));
        assert(entries@.drop_last() =~= before);
        assert(topology.deep_view().take(i as int + 1) =~= topology.deep_view().take(
            i as int,
        ).push(topology.deep_view()[i as int]));
        i += 1;
    }
    assert(topology.deep_view().take(topology.len() as int) =~= topology.deep_view());
    Json::Object(entries)
}

/// Whether `fields` holds nothing but ids.
pub open spec fn only_ids(fields: Seq<(String, Json)>) -> bool {
    forall|i: int|
        0 <= i < fields.len() ==> (#[trigger] fields[i]).0@ == "msg_id"@ || fields[i].0@
            == "in_reply_to"@
}

/// Adds the tag and the fields of `payload` to the members of a body.
pub fn encode_payload(payload: &Payload, fields: &mut Vec<(String, Json)>)
    requires
        only_ids(old(fields)@),
    ensures
        decoded_payload(final(fields)@) == Ok::<PayloadView, DecodeError>(payload@),
        member(final(fields)@, "msg_id"@) == member(old(fields)@, "msg_id"@),
        member(final(fields)@, "in_reply_to"@) == member(old(fields)@, "in_reply_to"@),
{
    broadcast use lemma_member_push;

    proof {
        lemma_names();
        lemma_member_absent(fields@, "type"@);
        lemma_member_absent(fields@, "echo"@);
        lemma_member_absent(fields@, "node_id"@);
        lemma_member_absent(fields@, "node_ids"@);
        lemma_member_absent(fields@, "id"@);
        lemma_member_absent(fields@, "topology"@);
        lemma_member_absent(fields@, "message"@);
        lemma_member_absent(fields@, "messages"@);
    }
    match payload {
        Payload::Echo { echo } => {
            fields.push(entry("type", Json::Text(String::from_str("echo"))));
            fields.push(entry("echo", Json::Text(echo.clone())));
        },
        Payload::EchoOk { echo } => {
            fields.push(entry("type", Json::Text(String::from_str("echo_ok"))));
            fields.push(entry("echo", Json::Text(echo.clone())));
        },
        Payload::Init { node_id, node_ids } => {
            fields.push(entry("type", Json::Text(String::from_str("init"))));
            fields.push(entry("node_id", Json::Text(node_id.clone())));
            fields.push(entry("node_ids", encode_texts(node_ids)));
        },
        Payload::InitOk => {
            fields.push(entry("type", Json::Text(String::from_str("init_ok"))));
        },
        Payload::Generate => {
            fields.push(entry("type", Json::Text(String::from_str("generate"))));
        },
        Payload::GenerateOk { id } => {
            fields.push(entry("type", Json::Text(String::from_str("generate_ok"))));
            fields.push(entry("id", Json::Text(id.clone())));
        },
        Payload::Topology { topology } => {
            fields.push(entry("type", Json::Text(String::from_str("topology"))));
            fields.push(entry("topology", encode_links(topology)));
        },
        Payload::TopologyOk => {
            fields.push(entry("type", Json::Text(String::from_str("topology_ok"))));
        },
        Payload::Broadcast { message } => {
            fields.push(entry("type", Json::Text(String::from_str("broadcast"))));
            fields.push(entry("message", Json::Number(*message as u64)));
        },
        Payload::BroadcastOk => {
            fields.push(entry("type", Json::Text(String::from_str("broadcast_ok"))));
        },
        Payload::Read => {
            fields.push(entry("type", Json::Text(String::from_str("read"))));
        },
        Payload::ReadOk { messages } => {
            fields.push(entry("type", Json::Text(String::from_str("read_ok"))));
            fields.push(entry("messages", encode_numbers(messages)));
        },
        Payload::Gossip { message } => {
            fields.push(entry("type", Json::Text(String::from_str("gossip"))));
            fields.push(entry("message", Json::Number(*message as u64)));
        },
        Payload::GossipOk => {
            fields.push(entry("type", Json::Text(String::from_str("gossip_ok"))));
        },
    }
}

/// Lays out a body: the ids it has, then the tag and the fields of its
/// payload. An id that the body lacks is left out.
pub fn encode_body(body: &Body<Payload>) -> (fields: Vec<(String, Json)>)
    ensures
        decoded_body(fields@) == Ok::<BodyView<PayloadView>, DecodeError>(body@),
        member(fields@, "msg_id"@) is None <==> body.msg_id is None,
        member(fields@, "in_reply_to"@) is None <==> body.in_reply_to is None,
{
    broadcast use lemma_member_push;

    proof {
        lemma_names();
    }
    let mut fields: Vec<(String, Json)> = Vec::new();
    match body.msg_id {
        Some(id) => {
            fields.push(entry("msg_id", Json::Number(id as u64)));
        },
        None => {},
    }
    match body.in_reply_to {
        Some(id) => {
            fields.push(entry("in_reply_to", Json::Number(id as u64)));
        },
        None => {},
    }
    encode_payload(&body.payload, &mut fields);
    fields
}

/// Lays out a message as a document with the members `src`, `dest` and
/// `body`, in this order. Decoding the document gives the message back.
pub fn encode_value(msg: &Message<Payload>) -> (doc: Json)
    ensures
        decoded(doc) == Ok::<MessageView<PayloadView>, DecodeError>(msg@),
        doc matches Json::Object(fields) && fields@.len() == 3 && fields@[0].0@ == "src"@
            && fields@[1].0@ == "dest"@ && fields@[2].0@ == "body"@,
{
    broadcast use lemma_member_push;

    proof {
        lemma_names();
    }
    let mut fields: Vec<(String, Json)> = Vec::new();
    fields.push(entry("src", Json::Text(msg.src.clone())));
    fields.push(entry("dest", Json::Text(msg.dest.clone())));
    fields.push(entry("body", Json::Object(encode_body(&msg.body))));
    Json::Object(fields)
}

} // verus!

