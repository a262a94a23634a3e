//! The commands that wait for the next simulation step, and their queue.

use crate::math::{Real, Vector2};
use std::collections::VecDeque;
use vstd::prelude::*;

verus! {

/// A command for the physics backend, to be applied at its next step.
#[derive(Clone, Copy, Debug, PartialEq, Eq, Structural)]
pub enum ApplyAction {
    /// A force at the center of mass.
    Force(Vector2),
    /// A torque at the center of mass.
    Torque(Real),
    /// A force at a point given in world coordinates.
    ForceAtPoint { force: Vector2, point: Vector2 },
    /// An impulse at the center of mass.
    Impulse(Vector2),
    /// An angular impulse at the center of mass.
    TorqueImpulse(Real),
    /// An impulse at a point given in world coordinates.
    ImpulseAtPoint { impulse: Vector2, point: Vector2 },
    /// A request to wake the body up.
    WakeUp,
}

/// The pending commands of one body, oldest first.
///
/// Whoever holds the queue exclusively may add to it or empty it; a queue that
/// several threads feed is shared behind a lock by its owner.
#[derive(Debug)]
pub struct ActionQueue {
    pending: VecDeque<ApplyAction>,
}

impl View for ActionQueue {
    type V = Seq<ApplyAction>;

    closed spec fn view(&self) -> Seq<ApplyAction> {
        self.pending@
    }
}

/// The queue `queue` after the commands of `submitted` were added to it one by
/// one, first to last.
pub open spec fn enqueue_all(queue: Seq<ApplyAction>, submitted: Seq<ApplyAction>) -> Seq<
    ApplyAction,
>
    decreases submitted.len(),
{
    if submitted.len() == 0 {
        queue
    } else {
        enqueue_all(queue, submitted.drop_last()).push(submitted.last())
    }
}

/// What emptying a queue that holds `queue` hands out, and what it leaves.
pub open spec fn drain_all(queue: Seq<ApplyAction>) -> (Seq<ApplyAction>, Seq<ApplyAction>) {
    (queue, Seq::empty())
}

/// Whether `merged` is the sequences of `parts` shuffled into one another: it is
/// built by taking, again and again, the next command of some part. This is the
/// order in which a queue takes the commands of several producers, each of which
/// adds its own commands one after the other.
pub open spec fn is_interleaving(merged: Seq<ApplyAction>, parts: Seq<Seq<ApplyAction>>) -> bool
    decreases merged.len(),
{
    if merged.len() == 0 {
        forall|p: int| 0 <= p < parts.len() ==> (#[trigger] parts[p]).len() == 0
    } else {
        exists|p: int|
            0 <= p < parts.len() && (#[trigger] parts[p]).len() > 0 && parts[p].last()
                == merged.last() && is_interleaving(
                merged.drop_last(),
                parts.update(p, parts[p].drop_last()),
            )
    }
}

/// The number of commands in all of `parts` together.
pub open spec fn total_len(parts: Seq<Seq<ApplyAction>>) -> nat
    decreases parts.len(),
{
    if parts.len() == 0 {
        0
    } else {
        total_len(parts.drop_last()) + parts.last().len()
    }
}

/// Whether the commands of `part` occur in `whole` in the order of `part`,
/// with or without other commands in between.
pub open spec fn occurs_in_order(part: Seq<ApplyAction>, whole: Seq<ApplyAction>) -> bool
    decreases whole.len(),
{
    if part.len() == 0 {
        true
    } else if whole.len() == 0 {
        false
    } else {
        ||| part.last() == whole.last() && occurs_in_order(part.drop_last(), whole.drop_last())
        ||| occurs_in_order(part, whole.drop_last())
    }
}

impl ActionQueue {
    /// An empty queue.
    pub fn new() -> (queue: Self)
        ensures
            queue@ == Seq::<ApplyAction>::empty(),
    {
        ActionQueue { pending: VecDeque::new() }
    }

    /// Adds `action` behind all pending commands.
    pub fn enqueue(&mut self, action: ApplyAction)
        ensures
            final(self)@ == old(self)@.push(action),
    {
        self.pending.push_back(action);
    }

    /// The number of pending commands.
    pub fn len(&self) -> (n: usize)
        ensures
            n == self@.len(),
    {
        self.pending.len()
    }

    /// Whether no command is pending.
    pub fn is_empty(&self) -> (empty: bool)
        ensures
            empty == (self@.len() == 0),
    {
        self.pending.len() == 0
    }

    /// Takes every pending command out of the queue and returns them, oldest
    /// first. The queue is empty afterwards.
    pub fn drain(&mut self) -> (drained: Vec<ApplyAction>)
        ensures
            drained@ == old(self)@,
            final(self)@ == Seq::<ApplyAction>::empty(),
            (drained@, final(self)@) == drain_all(old(self)@),
    {
        let mut drained: Vec<ApplyAction> = Vec::new();
        loop
            invariant
                drained@ + self.pending@ == old(self).pending@,
            ensures
                self.pending@.len() == 0,
            decreases self.pending@.len(),
        {
            match self.pending.pop_front() {
                Some(action) => {
                    drained.push(action);
                },
                None => {
                    break ;
                },
            }
        }
        drained
    }
}

impl Default for ActionQueue {
    /// An empty queue.
    fn default() -> (queue: Self)
        ensures
            queue@ == Seq::<ApplyAction>::empty(),
    {
        ActionQueue::new()
    }
}

/// Commands that are added one by one are all kept, each once and in the order
/// in which the queue took them: `submitted.len()` commands more than before,
/// behind those that were pending.
pub proof fn lemma_enqueue_all_appends(queue: Seq<ApplyAction>, submitted: Seq<ApplyAction>)
    ensures
        enqueue_all(queue, submitted) == queue + submitted,
        enqueue_all(queue, submitted).len() == queue.len() + submitted.len(),
    decreases submitted.len(),
{
    if submitted.len() > 0 {
        lemma_enqueue_all_appends(queue, submitted.drop_last());
        assert(queue + submitted == (queue + submitted.drop_last()).push(submitted.last()));
    }
}

/// Two commands that were added in some order stand in the queue in that order,
/// wherever other commands came in between: the command added as number `i` and
/// the one added as number `j`, with `i` before `j`, are found at the places
/// `i` and `j` behind what was pending.
pub proof fn lemma_enqueue_all_keeps_order(
    queue: Seq<ApplyAction>,
    submitted: Seq<ApplyAction>,
    i: int,
    j: int,
)
    requires
        0 <= i < j < submitted.len(),
    ensures
        enqueue_all(queue, submitted)[queue.len() + i] == submitted[i],
        enqueue_all(queue, submitted)[queue.len() + j] == submitted[j],
{
    lemma_enqueue_all_appends(queue, submitted);
}

/// Emptying a queue to which commands were added hands out exactly those
/// commands, as many as were added and in the order in which the queue took
/// them, and leaves nothing. Emptying an empty queue hands out nothing and
/// leaves it empty, so emptying twice in a row gives nothing the second time.
pub proof fn lemma_drain_after_enqueues(submitted: Seq<ApplyAction>)
    ensures
        drain_all(enqueue_all(Seq::empty(), submitted)).0 == submitted,
        drain_all(enqueue_all(Seq::empty(), submitted)).0.len() == submitted.len(),
        drain_all(enqueue_all(Seq::empty(), submitted)).1 == Seq::<ApplyAction>::empty(),
        drain_all(Seq::empty()) == (Seq::<ApplyAction>::empty(), Seq::<ApplyAction>::empty()),
        drain_all(drain_all(enqueue_all(Seq::empty(), submitted)).1).0 == Seq::<
            ApplyAction,
        >::empty(),
{
    lemma_enqueue_all_appends(Seq::empty(), submitted);
    assert(Seq::<ApplyAction>::empty() + submitted == submitted);
}

proof fn lemma_total_len_of_empty_parts(parts: Seq<Seq<ApplyAction>>)
    requires
        forall|p: int| 0 <= p < parts.len() ==> (#[trigger] parts[p]).len() == 0,
    ensures
        total_len(parts) == 0,
    decreases parts.len(),
{
    if parts.len() > 0 {
        lemma_total_len_of_empty_parts(parts.drop_last());
    }
}

proof fn lemma_total_len_update(parts: Seq<Seq<ApplyAction>>, p: int, part: Seq<ApplyAction>)
    requires
        0 <= p < parts.len(),
    ensures
        total_len(parts.update(p, part)) == total_len(parts) - parts[p].len() + part.len(),
    decreases parts.len(),
{
    if p == parts.len() - 1 {
        assert(parts.update(p, part).drop_last() == parts.drop_last());
    } else {
        lemma_total_len_update(parts.drop_last(), p, part);
        assert(parts.update(p, part).drop_last() == parts.drop_last().update(p, part));
    }
}

/// However the commands of several producers are shuffled into one another,
/// none is lost or doubled, and those of each producer keep the order in which
/// the producer added them.
pub proof fn lemma_interleaving_keeps_each_order(
    merged: Seq<ApplyAction>,
    parts: Seq<Seq<ApplyAction>>,
)
    requires
        is_interleaving(merged, parts),
    ensures
        merged.len() == total_len(parts),
        forall|p: int| 0 <= p < parts.len() ==> occurs_in_order(#[trigger] parts[p], merged),
    decreases merged.len(),
{
    if merged.len() == 0 {
        lemma_total_len_of_empty_parts(parts);
    } else {
        let last = choose|p: int|
            0 <= p < parts.len() && (#[trigger] parts[p]).len() > 0 && parts[p].last()
                == merged.last() && is_interleaving(
                merged.drop_last(),
                parts.update(p, parts[p].drop_last()),
            );
        let earlier = parts.update(last, parts[last].drop_last());
        lemma_interleaving_keeps_each_order(merged.drop_last(), earlier);
        lemma_total_len_update(parts, last, parts[last].drop_last());
        assert forall|p: int| 0 <= p < parts.len() implies occurs_in_order(
            #[trigger] parts[p],
            merged,
        ) by {
            assert(occurs_in_order(earlier[p], merged.drop_last()));
        }
    }
}

/// A queue that took the commands of several producers, in whatever order they
/// got to it, hands them all out when it is emptied: as many as the producers
/// added together, and those of each producer in the producer's own order.
pub proof fn lemma_drain_keeps_each_producers_order(
    accepted: Seq<ApplyAction>,
    producers: Seq<Seq<ApplyAction>>,
)
    requires
        is_interleaving(accepted, producers),
    ensures
        drain_all(enqueue_all(Seq::empty(), accepted)).0.len() == total_len(producers),
        forall|p: int|
            0 <= p < producers.len() ==> occurs_in_order(
                #[trigger] producers[p],
                drain_all(enqueue_all(Seq::empty(), accepted)).0,
            ),
        drain_all(enqueue_all(Seq::empty(), accepted)).1 == Seq::<ApplyAction>::empty(),
{
    lemma_drain_after_enqueues(accepted);
    lemma_interleaving_keeps_each_order(accepted, producers);
}

} // verus!
