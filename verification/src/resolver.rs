//! Resolution of actor references into link writes.
//!
//! An actor reference is a JSON value of any shape. A text names an actor; an
//! object names the actor in its member `id`; a list holds references, each of
//! which is resolved in turn. Any other value is no reference and is rejected.
//! Resolution walks the value in order and yields one link write for each actor
//! it meets before the first value that it rejects.

use vstd::prelude::*;
use crate::json::Json;
use crate::json::Member;
use crate::json::find_member;
use crate::json::get_member;
use crate::store::StatementKind;

verus! {

/// The part that an actor has in a message.
#[derive(Debug, Clone, Copy, PartialEq, Eq, Structural)]
pub enum Role {
    Sender,
    Recipient,
}

/// Why a resolution failed.
#[derive(Debug, Clone, Copy, PartialEq, Eq, Structural)]
pub enum Fault {
    /// The reference holds a value that names no actor: the caller's fault.
    ClientInput,
    /// A link write failed: the first such, by its place among the writes.
    Internal(usize),
}

/// One link to write: the actor's part, the message, and the actor as far
/// as the reference names one.
#[derive(Debug, Clone, PartialEq, Eq)]
pub struct LinkWrite {
    pub role: Role,
    pub message_id: i64,
    pub actor: Option<String>,
}

/// A link write as a mathematical value.
pub struct Link {
    pub role: Role,
    pub message_id: i64,
    pub actor: Option<Seq<char>>,
}

impl View for LinkWrite {
    type V = Link;

    open spec fn view(&self) -> Link {
        Link {
            role: self.role,
            message_id: self.message_id,
            actor: match self.actor {
                Some(s) => Some(s@),
                None => None,
            },
        }
    }
}

impl Role {
    /// The statement that writes a link for this part.
    pub open spec fn link_statement(self) -> StatementKind {
        match self {
            Role::Sender => StatementKind::AddSender,
            Role::Recipient => StatementKind::AddReciever,
        }
    }
}

impl LinkWrite {
    /// The statement that performs this write. Its first parameter is the
    /// message, its second the actor.
    pub fn statement(&self) -> (kind: StatementKind)
        ensures
            kind == self.role.link_statement(),
    {
        match self.role {
            Role::Sender => StatementKind::AddSender,
            Role::Recipient => StatementKind::AddReciever,
        }
    }
}

/// What a walk over a reference has met: the actors in the order of the walk,
/// and whether the walk reached the end without rejecting a value.
pub struct Walk {
    pub actors: Seq<Option<Seq<char>>>,
    pub complete: bool,
}

/// The actor that an object names: the text of its member `id`, if it has
/// such a member and that is a text.
pub open spec fn object_actor(members: Seq<Member>) -> Option<Seq<char>> {
    match find_member(members, "id"@) {
        Some(value) => value.text(),
        None => None,
    }
}

/// The walk over one reference.
pub open spec fn walk(json: Json) -> Walk
    decreases json,
{
    match json {
        Json::Text(s) => Walk { actors: seq![Some(s@)], complete: true },
        Json::Object(members) => Walk { actors: seq![object_actor(members@)], complete: true },
        Json::List(items) => walk_all(items@),
        _ => Walk { actors: Seq::empty(), complete: false },
    }
}

/// The walk over the items of a list: item after item, up to and including
/// the first whose own walk rejects a value.
pub open spec fn walk_all(items: Seq<Json>) -> Walk
    decreases items,
{
    if items.len() == 0 {
        Walk { actors: Seq::empty(), complete: true }
    } else {
        let before = walk_all(items.drop_last());
        if before.complete {
            let last = walk(items.last());
            Walk { actors: before.actors + last.actors, complete: last.complete }
        } else {
            before
        }
    }
}

/// The links for a sequence of actors, all for one part and one message.
pub open spec fn links(actors: Seq<Option<Seq<char>>>, role: Role, message_id: i64) -> Seq<Link> {
    actors.map_values(|actor: Option<Seq<char>>| Link { role, message_id, actor })
}

/// The writes of a sequence as mathematical values.
pub open spec fn views(writes: Seq<LinkWrite>) -> Seq<Link> {
    writes.map_values(|w: LinkWrite| w@)
}

/// The outcome of resolving a reference: the link writes to perform, in the
/// order of the walk, and whether the reference held a value that names no
/// actor.
#[derive(Debug, PartialEq, Eq)]
pub struct Resolution {
    pub writes: Vec<LinkWrite>,
    pub rejected: bool,
}

/// `resolution` is what resolving `json` for a part in a message yields.
pub open spec fn resolves(json: Json, role: Role, message_id: i64, resolution: Resolution) -> bool {
    &&& views(resolution.writes@) == links(walk(json).actors, role, message_id)
    &&& resolution.rejected == !walk(json).complete
}

/// The actor that an object names.
fn actor_of(members: &Vec<Member>) -> (actor: Option<String>)
    ensures
        match actor {
            Some(s) => object_actor(members@) == Some(s@),
            None => object_actor(members@).is_none(),
        },
{
    match get_member(members, "id") {
        Some(value) => match value.as_str() {
            Some(s) => Some(s.clone()),
            None => None,
        },
        None => None,
    }
}

/// Walks `json` and appends to `out` one write for each actor met.
fn collect(json: &Json, role: Role, message_id: i64, out: &mut Vec<LinkWrite>) -> (complete: bool)
    ensures
        complete == walk(*json).complete,
        views(final(out)@) == views(old(out)@) + links(walk(*json).actors, role, message_id),
    decreases json,
{
    match json {
        Json::Text(s) => {
            let write = LinkWrite { role, message_id, actor: Some(s.clone()) };
            out.push(write);
            true
        },
        Json::Object(members) => {
            let write = LinkWrite { role, message_id, actor: actor_of(members) };
            out.push(write);
            true
        },
        Json::List(items) => {
            let mut complete = true;
            let mut i: usize = 0;
            assert(views(out@) =~= views(old(out)@) + links(
                walk_all(items@.take(0)).actors,
                role,
                message_id,
            ));
            while i < items.len()
                invariant
                    i <= items.len(),
                    *json == Json::List(*items),
                    complete == walk_all(items@.take(i as int)).complete,
                    views(out@) == views(old(out)@) + links(
                        walk_all(items@.take(i as int)).actors,
                        role,
                        message_id,
                    ),
                decreases items.len() - i,
            {
                let ghost grown = items@.take(i + 1);
                assert(grown.drop_last() =~= items@.take(i as int));
                if complete {
                    assert(decreases_to!(*json => json->List_0));
                    complete = collect(&items[i], role, message_id, out);
                    assert(views(out@) =~= views(old(out)@) + links(
                        walk_all(grown).actors,
                        role,
                        message_id,
                    ));
                }
                i += 1;
            }
            assert(items@.take(i as int) =~= items@);
            complete
        },
        _ => false,
    }
}

/// Resolves `json` for a part in a message.
pub fn resolve(json: &Json, role: Role, message_id: i64) -> (resolution: Resolution)
    ensures
        resolves(*json, role, message_id, resolution),
{
    let mut writes: Vec<LinkWrite> = Vec::new();
    let complete = collect(json, role, message_id, &mut writes);
    Resolution { writes, rejected: !complete }
}

/// Resolves `json` as the senders of the message `id`.
pub fn process_senders(json: &Json, id: i64) -> (resolution: Resolution)
    ensures
        resolves(*json, Role::Sender, id, resolution),
{
    resolve(json, Role::Sender, id)
}

/// Resolves `json` as the recipients of the message `id`.
pub fn process_recievers(json: &Json, id: i64) -> (resolution: Resolution)
    ensures
        resolves(*json, Role::Recipient, id, resolution),
{
    resolve(json, Role::Recipient, id)
}

/// The write at place `i` was reported to have succeeded.
pub open spec fn succeeded(outcomes: Seq<bool>, i: int) -> bool {
    0 <= i < outcomes.len() && outcomes[i]
}

/// `result` is how a resolution ends, given whether it rejected a value, how
/// many writes it asked for, and what became of them. A rejected value fails
/// it as the caller's fault, whatever became of the writes. Else the first
/// write that did not succeed fails it. Else it succeeds.
pub open spec fn settled(rejected: bool, count: nat, outcomes: Seq<bool>, result: Result<(), Fault>) -> bool {
    match result {
        Ok(_) => !rejected && forall|i: int| 0 <= i < count ==> succeeded(outcomes, i),
        Err(Fault::ClientInput) => rejected,
        Err(Fault::Internal(at)) => {
            &&& !rejected
            &&& at < count
            &&& !succeeded(outcomes, at as int)
            &&& forall|i: int| 0 <= i < at ==> succeeded(outcomes, i)
        },
    }
}

impl Resolution {
    /// How the resolution ends once its writes were performed: `outcomes` says
    /// of each write, in the order of `writes`, whether it succeeded. A write
    /// without an outcome counts as failed.
    pub fn settle(&self, outcomes: &Vec<bool>) -> (result: Result<(), Fault>)
        ensures
            settled(self.rejected, self.writes@.len(), outcomes@, result),
    {
        if self.rejected {
            return Err(Fault::ClientInput);
        }
        let mut i: usize = 0;
        while i < self.writes.len()
            invariant
                i <= self.writes.len(),
                !self.rejected,
                forall|j: int| 0 <= j < i ==> succeeded(outcomes@, j),
            decreases self.writes.len() - i,
        {
            if i >= outcomes.len() || !outcomes[i] {
                return Err(Fault::Internal(i));
            }
            i += 1;
        }
        Ok(())
    }
}

/// The value is a reference throughout: a text, an object, or a list of such.
pub open spec fn is_reference(json: Json) -> bool
    decreases json,
{
    match json {
        Json::Text(_) => true,
        Json::Object(_) => true,
        Json::List(items) => forall|i: int| 0 <= i < items@.len() ==> is_reference(#[trigger] items@[i]),
        _ => false,
    }
}

/// The number of leaves of a value: the values in it that are not lists.
pub open spec fn leaf_count(json: Json) -> nat
    decreases json,
{
    match json {
        Json::List(items) => leaf_count_all(items@),
        _ => 1,
    }
}

/// The number of leaves of the items of a list.
pub open spec fn leaf_count_all(items: Seq<Json>) -> nat
    decreases items,
{
    if items.len() == 0 {
        0
    } else {
        leaf_count_all(items.drop_last()) + leaf_count(items.last())
    }
}

/// The actors that the leaves of a value name, in the order of the walk. A leaf
/// that names no actor adds nothing.
pub open spec fn leaf_actors(json: Json) -> Seq<Option<Seq<char>>>
    decreases json,
{
    match json {
        Json::Text(s) => seq![Some(s@)],
        Json::Object(members) => seq![object_actor(members@)],
        Json::List(items) => leaf_actors_all(items@),
        _ => Seq::empty(),
    }
}

/// The actors that the leaves of the items of a list name.
pub open spec fn leaf_actors_all(items: Seq<Json>) -> Seq<Option<Seq<char>>>
    decreases items,
{
    if items.len() == 0 {
        Seq::empty()
    } else {
        leaf_actors_all(items.drop_last()) + leaf_actors(items.last())
    }
}

/// Resolution of a reference rejects nothing and asks for exactly one write
/// for each leaf, however deep the leaves lie: the writes are the links of the
/// actors that the leaves name, in the order of the walk.
pub proof fn lemma_one_write_per_leaf(json: Json, role: Role, message_id: i64, resolution: Resolution)
    requires
        is_reference(json),
        resolves(json, role, message_id, resolution),
    ensures
        !resolution.rejected,
        resolution.writes@.len() == leaf_count(json),
        views(resolution.writes@) == links(leaf_actors(json), role, message_id),
{
    lemma_walk_of_reference(json);
    assert(views(resolution.writes@).len() == resolution.writes@.len());
}

/// The walk over a reference is complete and meets the actor of each leaf.
pub proof fn lemma_walk_of_reference(json: Json)
    requires
        is_reference(json),
    ensures
        walk(json).complete,
        walk(json).actors == leaf_actors(json),
        walk(json).actors.len() == leaf_count(json),
    decreases json,
{
    match json {
        Json::List(items) => {
            lemma_walk_of_references(items@);
        },
        _ => {},
    }
}

/// The walk over a list of references is complete and meets the actor of
/// each leaf.
pub proof fn lemma_walk_of_references(items: Seq<Json>)
    requires
        forall|i: int| 0 <= i < items.len() ==> is_reference(#[trigger] items[i]),
    ensures
        walk_all(items).complete,
        walk_all(items).actors == leaf_actors_all(items),
        walk_all(items).actors.len() == leaf_count_all(items),
    decreases items,
{
    if items.len() > 0 {
        lemma_walk_of_references(items.drop_last());
        lemma_walk_of_reference(items.last());
    }
}

/// Resolution never asks for a write that the value does not call for: what
/// it meets is the beginning of what the leaves name, and all of it where
/// nothing is rejected.
pub proof fn lemma_walk_meets_leaves_in_order(json: Json)
    ensures
        walk(json).actors.is_prefix_of(leaf_actors(json)),
        walk(json).complete ==> walk(json).actors == leaf_actors(json),
    decreases json,
{
    match json {
        Json::List(items) => {
            lemma_walk_all_meets_leaves_in_order(items@);
        },
        _ => {},
    }
}

/// The same for the items of a list.
pub proof fn lemma_walk_all_meets_leaves_in_order(items: Seq<Json>)
    ensures
        walk_all(items).actors.is_prefix_of(leaf_actors_all(items)),
        walk_all(items).complete ==> walk_all(items).actors == leaf_actors_all(items),
    decreases items,
{
    if items.len() > 0 {
        lemma_walk_all_meets_leaves_in_order(items.drop_last());
        lemma_walk_meets_leaves_in_order(items.last());
    }
}

/// Senders and recipients are resolved alike: the two resolutions of one
/// value for one message reject alike and name the same actors in the same
/// order, and differ only in the part that their writes give to the actors.
pub proof fn lemma_roles_resolve_alike(json: Json, message_id: i64, senders: Resolution, recipients: Resolution)
    requires
        resolves(json, Role::Sender, message_id, senders),
        resolves(json, Role::Recipient, message_id, recipients),
    ensures
        senders.rejected == recipients.rejected,
        senders.writes@.len() == recipients.writes@.len(),
        forall|i: int|
            0 <= i < senders.writes@.len() ==> {
                &&& (#[trigger] senders.writes@[i]).role == Role::Sender
                &&& recipients.writes@[i].role == Role::Recipient
                &&& senders.writes@[i].message_id == message_id
                &&& recipients.writes@[i].message_id == message_id
                &&& senders.writes@[i]@.actor == recipients.writes@[i]@.actor
            },
{
    let actors = walk(json).actors;
    assert(views(senders.writes@).len() == senders.writes@.len());
    assert(views(recipients.writes@).len() == recipients.writes@.len());
    assert forall|i: int| 0 <= i < senders.writes@.len() implies {
        &&& (#[trigger] senders.writes@[i]).role == Role::Sender
        &&& recipients.writes@[i].role == Role::Recipient
        &&& senders.writes@[i].message_id == message_id
        &&& recipients.writes@[i].message_id == message_id
        &&& senders.writes@[i]@.actor == recipients.writes@[i]@.actor
    } by {
        assert(views(senders.writes@)[i] == links(actors, Role::Sender, message_id)[i]);
        assert(views(recipients.writes@)[i] == links(actors, Role::Recipient, message_id)[i]);
    }
}

/// Resolution of a null, a boolean or a number rejects it, asks for no write,
/// and ends as the caller's fault whatever is reported of writes.
pub proof fn lemma_scalar_is_rejected(
    json: Json,
    role: Role,
    message_id: i64,
    resolution: Resolution,
    outcomes: Seq<bool>,
    result: Result<(), Fault>,
)
    requires
        json is Null || json is Bool || json is Number,
        resolves(json, role, message_id, resolution),
        settled(resolution.rejected, resolution.writes@.len(), outcomes, result),
    ensures
        resolution.rejected,
        resolution.writes@.len() == 0,
        result == Err::<(), Fault>(Fault::ClientInput),
{
    assert(views(resolution.writes@).len() == resolution.writes@.len());
}

} // verus!
