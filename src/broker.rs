use std::collections::HashMap;
use tokio::sync::oneshot;
use vstd::prelude::*;

use crate::context::{Context, PromptEvent};

verus! {

broadcast use vstd::std_specs::hash::group_hash_axioms;

#[verifier::external_type_specification]
#[verifier::external_body]
#[verifier::reject_recursive_types(T)]
pub struct ExOneshotSender<T>(oneshot::Sender<T>);

#[verifier::external_type_specification]
#[verifier::external_body]
#[verifier::reject_recursive_types(T)]
pub struct ExOneshotReceiver<T>(oneshot::Receiver<T>);

#[verifier::external_type_specification]
#[verifier::external_body]
pub struct ExOneshotRecvError(oneshot::error::RecvError);

/// Relies on tokio::sync::oneshot::channel: a fresh single-use channel, its
/// sending half and its receiving half.
#[verifier::external_body]
fn oneshot_channel() -> (r: (oneshot::Sender<Option<String>>, oneshot::Receiver<Option<String>>)) {
    oneshot::channel()
}

/// Relies on tokio::sync::oneshot::Sender::send: the value goes to the
/// receiving half, or is handed back unchanged when that half is gone.
#[verifier::external_body]
fn oneshot_send(sender: oneshot::Sender<Option<String>>, value: Option<String>) -> (r: Result<
    (),
    Option<String>,
>)
    ensures
        match r {
            Ok(()) => true,
            Err(back) => back == value,
        },
{
    sender.send(value)
}

/// The single-use response slot of one pending prompt.
pub struct AskpassRequest {
    sender: oneshot::Sender<Option<String>>,
}

/// What became of a response handed to [`PendingRequests::handle_response`].
#[derive(Debug, Clone, PartialEq, Eq)]
pub enum Resolution {
    /// The id was pending; the value went to its waiting submitter.
    Delivered,
    /// The id was pending, but its submitter had stopped waiting; the value
    /// is handed back.
    Abandoned(Option<String>),
    /// No prompt with that id is pending: it was never issued or is already
    /// resolved. Nothing changed.
    Unknown,
}

/// The table of prompts that wait for an answer, keyed by ids that are never
/// issued twice.
pub struct PendingRequests {
    requests: HashMap<u64, AskpassRequest>,
    next_id: u64,
}

/// Ids issued from `next` on are all fresh with respect to `ids`.
pub open spec fn ids_fresh_from(ids: Set<u64>, next: u64) -> bool {
    forall|k: u64| ids.contains(k) ==> k < next
}

impl PendingRequests {
    /// The ids that are waiting for an answer.
    pub closed spec fn pending_ids(&self) -> Set<u64> {
        self.requests@.dom()
    }

    /// The id that the next submission receives.
    pub closed spec fn next_id(&self) -> u64 {
        self.next_id
    }

    /// Every pending id was issued before the next one.
    #[verifier::type_invariant]
    spec fn inv(&self) -> bool {
        ids_fresh_from(self.requests@.dom(), self.next_id)
    }

    /// An empty table.
    pub fn new() -> (r: Self)
        ensures
            r.pending_ids() == Set::<u64>::empty(),
            ids_fresh_from(r.pending_ids(), r.next_id()),
            r.next_id() == 0,
    {
        PendingRequests { requests: HashMap::new(), next_id: 0 }
    }

    /// Whether `id` is waiting for an answer.
    pub fn is_pending(&self, id: u64) -> (r: bool)
        ensures
            r == self.pending_ids().contains(id),
    {
        self.requests.contains_key(&id)
    }

    /// Registers a new prompt. It gets the next id, which no earlier prompt
    /// had; a fresh response slot is kept under that id; and the event for
    /// the renderer and the receiving half, on which the submitter waits, are
    /// returned. `None`, with nothing changed, once every id has been issued.
    pub fn submit(&mut self, prompt: String, context: Context) -> (r: Option<
        (PromptEvent<Context>, oneshot::Receiver<Option<String>>),
    >)
        ensures
            ids_fresh_from(old(self).pending_ids(), old(self).next_id()),
            ids_fresh_from(final(self).pending_ids(), final(self).next_id()),
            (final(self).pending_ids(), final(self).next_id()) == broker_step(
                old(self).pending_ids(),
                old(self).next_id(),
                BrokerOp::Submit,
            ),
            r.is_some() <==> old(self).next_id() < u64::MAX,
            match r {
                Some((event, _)) => {
                    &&& event.id == old(self).next_id()
                    &&& !old(self).pending_ids().contains(event.id)
                    &&& event.prompt == prompt
                    &&& event.context == context
                },
                None => true,
            },
    {
        proof {
            use_type_invariant(&*self);
        }
        if self.next_id == u64::MAX {
            return None;
        }
        let id = self.next_id;
        let (sender, receiver) = oneshot_channel();
        // The table is taken out whole and put back whole, so that its
        // invariant is checked on the rebuilt value.
        let mut taken = PendingRequests::new();
        core::mem::swap(self, &mut taken);
        let PendingRequests { mut requests, next_id: _ } = taken;
        requests.insert(id, AskpassRequest { sender });
        *self = PendingRequests { requests, next_id: id + 1 };
        Some((PromptEvent { id, prompt, context }, receiver))
    }

    /// Answers the prompt `id` with `response`. A pending id leaves the table
    /// and its submitter gets `response`, once; an id that is not pending
    /// (never issued, or answered already) changes nothing.
    pub fn handle_response(&mut self, id: u64, response: Option<String>) -> (r: Resolution)
        ensures
            ids_fresh_from(old(self).pending_ids(), old(self).next_id()),
            ids_fresh_from(final(self).pending_ids(), final(self).next_id()),
            (final(self).pending_ids(), final(self).next_id()) == broker_step(
                old(self).pending_ids(),
                old(self).next_id(),
                BrokerOp::Resolve(id),
            ),
            r == Resolution::Unknown <==> !old(self).pending_ids().contains(id),
            match r {
                Resolution::Abandoned(back) => back == response,
                _ => true,
            },
    {
        proof {
            use_type_invariant(&*self);
        }
        let mut taken = PendingRequests::new();
        core::mem::swap(self, &mut taken);
        let PendingRequests { mut requests, next_id } = taken;
        let removed = requests.remove(&id);
        *self = PendingRequests { requests, next_id };
        match removed {
            Some(request) => {
                match oneshot_send(request.sender, response) {
                    Ok(()) => Resolution::Delivered,
                    Err(back) => Resolution::Abandoned(back),
                }
            },
            None => Resolution::Unknown,
        }
    }
}

/// One operation on the table of pending prompts.
pub enum BrokerOp {
    Submit,
    Resolve(u64),
}

/// The pending ids and the next id after one operation.
pub open spec fn broker_step(ids: Set<u64>, next: u64, op: BrokerOp) -> (Set<u64>, u64) {
    match op {
        BrokerOp::Submit => if next < u64::MAX {
            (ids.insert(next), (next + 1) as u64)
        } else {
            (ids, next)
        },
        BrokerOp::Resolve(id) => (ids.remove(id), next),
    }
}

/// How many of `ops`, run from the given table, answer a pending prompt `id`.
pub open spec fn deliveries(ids: Set<u64>, next: u64, ops: Seq<BrokerOp>, id: u64) -> nat
    decreases ops.len(),
{
    if ops.len() == 0 {
        0
    } else {
        let (ids2, next2) = broker_step(ids, next, ops[0]);
        let here: nat = if ops[0] == BrokerOp::Resolve(id) && ids.contains(id) {
            1
        } else {
            0
        };
        here + deliveries(ids2, next2, ops.drop_first(), id)
    }
}

/// No prompt is answered twice: over any interleaving of submissions and
/// responses, run from a well-formed table, each id reaches a waiting
/// submitter at most once, whatever ids the responses carry.
pub proof fn lemma_delivered_at_most_once(ids: Set<u64>, next: u64, ops: Seq<BrokerOp>, id: u64)
    requires
        ids_fresh_from(ids, next),
    ensures
        deliveries(ids, next, ops, id) <= 1,
        !ids.contains(id) && id < next ==> deliveries(ids, next, ops, id) == 0,
    decreases ops.len(),
{
    if ops.len() > 0 {
        let (ids2, next2) = broker_step(ids, next, ops[0]);
        lemma_delivered_at_most_once(ids2, next2, ops.drop_first(), id);
    }
}

/// Each submission is answered by the first response that carries its id:
/// after a submission, the first `Resolve` of the id it got delivers, and no
/// response after it delivers again.
pub proof fn lemma_first_response_delivers(
    ids: Set<u64>,
    next: u64,
    before: Seq<BrokerOp>,
    after: Seq<BrokerOp>,
)
    requires
        ids_fresh_from(ids, next),
        next < u64::MAX,
        forall|i: int| 0 <= i < before.len() ==> before[i] != BrokerOp::Resolve(next),
    ensures
        deliveries(
            ids,
            next,
            seq![BrokerOp::Submit].add(before).push(BrokerOp::Resolve(next)).add(after),
            next,
        ) == 1,
{
    let ops = seq![BrokerOp::Submit].add(before).push(BrokerOp::Resolve(next)).add(after);
    let (ids1, next1) = broker_step(ids, next, BrokerOp::Submit);
    assert(ops.drop_first() =~= before.push(BrokerOp::Resolve(next)).add(after));
    lemma_pending_until_resolved(ids1, next1, before, BrokerOp::Resolve(next), after, next);
    assert(deliveries(ids, next, ops, next) == deliveries(ids1, next1, ops.drop_first(), next));
}

/// While no op resolves `id`, a pending `id` stays pending and nothing
/// delivers it; the op after that delivers it once, and nothing after.
proof fn lemma_pending_until_resolved(
    ids: Set<u64>,
    next: u64,
    before: Seq<BrokerOp>,
    hit: BrokerOp,
    after: Seq<BrokerOp>,
    id: u64,
)
    requires
        ids_fresh_from(ids, next),
        ids.contains(id),
        hit == BrokerOp::Resolve(id),
        forall|i: int| 0 <= i < before.len() ==> before[i] != BrokerOp::Resolve(id),
    ensures
        deliveries(ids, next, before.push(hit).add(after), id) == 1,
    decreases before.len(),
{
    let ops = before.push(hit).add(after);
    let (ids2, next2) = broker_step(ids, next, ops[0]);
    if before.len() == 0 {
        assert(ops.drop_first() =~= after);
        lemma_delivered_at_most_once(ids2, next2, after, id);
    } else {
        assert(before[0] != BrokerOp::Resolve(id));
        assert(ops.drop_first() =~= before.drop_first().push(hit).add(after));
        lemma_pending_until_resolved(ids2, next2, before.drop_first(), hit, after, id);
    }
}

/// A response for an id that is not pending leaves every pending prompt
/// waiting and issues nothing.
pub proof fn lemma_unknown_response_is_inert(ids: Set<u64>, next: u64, id: u64)
    requires
        !ids.contains(id),
    ensures
        broker_step(ids, next, BrokerOp::Resolve(id)) == (ids, next),
{
    assert(ids.remove(id) =~= ids);
}

} // verus!
