//! The per-processor command queues and the decision that each processor's
//! worker loop takes on every turn.
use vstd::prelude::*;
use std::collections::BTreeMap;
use crate::sync::Deque;
use crate::vtl::Vtl;

verus! {

broadcast use vstd::std_specs::btree::group_btree_axioms, vstd::laws_cmp::group_laws_cmp;

/// What a worker loop does next on a processor running at some trust level.
pub enum WorkerStep<C> {
    /// Nothing is queued: spin.
    Idle,
    /// The front command targets the running level: it was taken off the queue to run.
    Run(C),
    /// The front command targets another level: it stays queued, and the loop
    /// switches to that level.
    SwitchTo(Vtl),
}

/// The step that a queue calls for at level `current`.
pub open spec fn worker_step<C>(q: Seq<(C, Vtl)>, current: Vtl) -> WorkerStep<C> {
    if q.len() == 0 {
        WorkerStep::Idle
    } else if q[0].1 == current {
        WorkerStep::Run(q[0].0)
    } else {
        WorkerStep::SwitchTo(q[0].1)
    }
}

/// The queue after that step: only a command that runs leaves it.
pub open spec fn queue_after_step<C>(q: Seq<(C, Vtl)>, current: Vtl) -> Seq<(C, Vtl)> {
    if q.len() > 0 && q[0].1 == current {
        q.drop_first()
    } else {
        q
    }
}

/// Why a command was not queued; the command is handed back.
pub enum QueueError<C> {
    /// The processor has no queue.
    NotRegistered(C),
    /// The processor's queue holds as many commands as it may.
    Full(C),
}

/// A bounded command queue for every registered processor, each a list of
/// command bodies with the trust level that each must run at.
#[verifier::reject_recursive_types(C)]
pub struct CommandTable<C> {
    queues: BTreeMap<u32, Deque<(C, Vtl)>>,
    capacity: usize,
}

impl<C> CommandTable<C> {
    /// Each registered processor's queue, front first.
    pub closed spec fn view(&self) -> Map<u32, Seq<(C, Vtl)>> {
        self.queues@.map_values(|q: Deque<(C, Vtl)>| q@)
    }

    /// The number of commands a queue may hold before `send` refuses more.
    pub closed spec fn capacity(&self) -> nat {
        self.capacity as nat
    }

    pub fn new(capacity: usize) -> (r: Self)
        ensures
            r@ == Map::<u32, Seq<(C, Vtl)>>::empty(),
            r.capacity() == capacity,
    {
        let r = CommandTable { queues: BTreeMap::new(), capacity };
        assert(r@ =~= Map::<u32, Seq<(C, Vtl)>>::empty());
        r
    }

    pub fn is_registered(&self, vp: u32) -> (r: bool)
        ensures
            r == self@.contains_key(vp),
    {
        self.queues.contains_key(&vp)
    }

    /// Gives `vp` an empty queue unless it has one already.
    pub fn register(&mut self, vp: u32)
        ensures
            final(self).capacity() == old(self).capacity(),
            old(self)@.contains_key(vp) ==> final(self)@ == old(self)@,
            !old(self)@.contains_key(vp) ==> final(self)@ == old(self)@.insert(vp, Seq::empty()),
    {
        if !self.queues.contains_key(&vp) {
            self.queues.insert(vp, Deque::new());
            assert(self@ =~= old(self)@.insert(vp, Seq::empty()));
        }
    }

    /// Registers processors `0..count`.
    pub fn register_all(&mut self, count: u32)
        ensures
            final(self).capacity() == old(self).capacity(),
            forall|v: u32| v < count ==> #[trigger] final(self)@.contains_key(v),
            forall|v: u32|
                #[trigger] old(self)@.contains_key(v) ==> final(self)@.contains_key(v) && final(self)@[v]
                    == old(self)@[v],
            forall|v: u32|
                #![trigger final(self)@.contains_key(v)]
                !old(self)@.contains_key(v) && v >= count ==> !final(self)@.contains_key(v),
            forall|v: u32|
                !old(self)@.contains_key(v) && #[trigger] final(self)@.contains_key(v) ==> final(self)@[v] == Seq::<(C, Vtl)>::empty(),
    {
        let mut i: u32 = 0;
        while i < count
            invariant
                i <= count,
                self.capacity() == old(self).capacity(),
                forall|v: u32| v < i ==> #[trigger] self@.contains_key(v),
                forall|v: u32|
                    #[trigger] old(self)@.contains_key(v) ==> self@.contains_key(v) && self@[v]
                        == old(self)@[v],
                forall|v: u32|
                    #![trigger self@.contains_key(v)]
                    !old(self)@.contains_key(v) && v >= i ==> !self@.contains_key(v),
                forall|v: u32|
                    !old(self)@.contains_key(v) && #[trigger] self@.contains_key(v) ==> self@[v]
                        == Seq::<(C, Vtl)>::empty(),
            decreases count - i,
        {
            self.register(i);
            i = i + 1;
        }
    }

    /// Queues `body` behind what `vp` has queued, unless `vp` has no queue or
    /// its queue is full; a refused command is handed back.
    pub fn send(&mut self, vp: u32, body: C, vtl: Vtl) -> (r: Result<(), QueueError<C>>)
        ensures
            final(self).capacity() == old(self).capacity(),
            !old(self)@.contains_key(vp) ==> r == Err::<(), QueueError<C>>(
                QueueError::NotRegistered(body),
            ) && final(self)@ == old(self)@,
            old(self)@.contains_key(vp) && old(self)@[vp].len() >= old(self).capacity() ==> r
                == Err::<(), QueueError<C>>(QueueError::Full(body)) && final(self)@ == old(self)@,
            old(self)@.contains_key(vp) && old(self)@[vp].len() < old(self).capacity() ==> r is Ok
                && final(self)@ == old(self)@.insert(vp, old(self)@[vp].push((body, vtl))),
    {
        match self.queues.remove(&vp) {
            None => Err(QueueError::NotRegistered(body)),
            Some(q) => {
                let mut q = q;
                if q.len() >= self.capacity {
                    self.queues.insert(vp, q);
                    assert(self@ =~= old(self)@);
                    return Err(QueueError::Full(body));
                }
                q.push_back((body, vtl));
                self.queues.insert(vp, q);
                assert(self@ =~= old(self)@.insert(vp, old(self)@[vp].push((body, vtl))));
                Ok(())
            },
        }
    }

    /// Queues `body` in front of what `vp` has queued, full or not; hands it
    /// back if `vp` has no queue.
    pub fn send_priority(&mut self, vp: u32, body: C, vtl: Vtl) -> (r: Result<(), C>)
        ensures
            final(self).capacity() == old(self).capacity(),
            old(self)@.contains_key(vp) ==> r is Ok && final(self)@ == old(self)@.insert(
                vp,
                seq![(body, vtl)] + old(self)@[vp],
            ),
            !old(self)@.contains_key(vp) ==> r == Err::<(), C>(body) && final(self)@ == old(self)@,
    {
        match self.queues.remove(&vp) {
            None => Err(body),
            Some(q) => {
                let mut q = q;
                q.push_front((body, vtl));
                self.queues.insert(vp, q);
                assert(self@ =~= old(self)@.insert(vp, seq![(body, vtl)] + old(self)@[vp]));
                Ok(())
            },
        }
    }

    /// The turn of the worker loop of `vp` running at `current`: takes the front
    /// command if it targets `current`, and otherwise leaves the queue as it is.
    pub fn next_command(&mut self, vp: u32, current: Vtl) -> (r: WorkerStep<C>)
        ensures
            final(self).capacity() == old(self).capacity(),
            !old(self)@.contains_key(vp) ==> r is Idle && final(self)@ == old(self)@,
            old(self)@.contains_key(vp) ==> r == worker_step(old(self)@[vp], current) && final(self)@ == old(self)@.insert(vp, queue_after_step(old(self)@[vp], current)),
    {
        match self.queues.remove(&vp) {
            None => WorkerStep::Idle,
            Some(q) => {
                let mut q = q;
                let step = match q.front() {
                    None => WorkerStep::Idle,
                    Some(front) => {
                        if front.1 == current {
                            match q.pop_front() {
                                Some((c, _)) => WorkerStep::Run(c),
                                None => WorkerStep::Idle,
                            }
                        } else {
                            WorkerStep::SwitchTo(front.1)
                        }
                    },
                };
                self.queues.insert(vp, q);
                assert(self@ =~= old(self)@.insert(vp, queue_after_step(old(self)@[vp], current)));
                step
            },
        }
    }
}

/// A worker loop runs a command only at the trust level that the command targets,
/// and the command it runs is the one at the front of the queue.
pub proof fn lemma_runs_only_at_target_vtl<C>(q: Seq<(C, Vtl)>, current: Vtl)
    ensures
        worker_step(q, current) is Run ==> q.len() > 0 && q[0].1 == current
            && worker_step(q, current)->Run_0 == q[0].0,
{
}

/// Commands on one processor run in the order they were queued: a turn of the
/// worker loop takes at most the front command, and every command behind it keeps
/// its place relative to the others.
pub proof fn lemma_turns_keep_queue_order<C>(q: Seq<(C, Vtl)>, current: Vtl, i: int, j: int)
    requires
        0 <= i < j < q.len(),
    ensures
        worker_step(q, current) is Run ==> queue_after_step(q, current).len() == q.len() - 1
            && queue_after_step(q, current)[j - 1] == q[j] && (i > 0 ==> queue_after_step(
            q,
            current,
        )[i - 1] == q[i]),
        !(worker_step(q, current) is Run) ==> queue_after_step(q, current) == q,
{
}

} // verus!
