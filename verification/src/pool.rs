//! The pool: owner of a fixed set of workers and of the sending half
//! of the shared queue, with non-blocking submission and the
//! sentinel-counting shutdown protocol.

use vstd::prelude::*;
use crate::channel::{channel_clone_receiver, logged_unbounded, LoggedSender};
use crate::message::{KeyCode, Message, MouseEvent};

verus! {

/// The pool's record of one worker: its identifier, unique within the
/// pool and 0-based. The worker's thread of execution is owned by the
/// host that spawned it.
#[derive(Debug)]
pub struct Worker {
    id: usize,
}

impl Worker {
    /// The worker's identifier.
    pub closed spec fn spec_id(self) -> usize {
        self.id
    }

    /// The worker's identifier.
    pub fn id(&self) -> (r: usize)
        ensures
            r == self.spec_id(),
        {
        self.id
    }
}

/// Why a submission was rejected.
#[derive(Clone, Copy, PartialEq, Eq, Structural, Debug)]
pub enum SubmitError {
    /// The pool's queue is closed: teardown has begun, so the pool
    /// accepts no further work.
    Closed,
}

/// A fixed-size worker pool. It owns the workers' records and the
/// sending half of the one shared queue; the receiving half is
/// duplicated across the workers at construction and not owned by the
/// pool afterwards.
#[verifier::reject_recursive_types(J)]
pub struct Pool<J> {
    workers: Vec<Worker>,
    tx: LoggedSender<Message<J>>,
    open: bool,
}

impl<J> Pool<J> {
    /// How many workers the pool owns; fixed at construction.
    pub closed spec fn size(self) -> nat {
        self.workers@.len()
    }

    /// The identifier of the worker at position `i`.
    pub closed spec fn worker_id(self, i: int) -> usize {
        self.workers@[i].spec_id()
    }

    /// Whether the pool still accepts submissions, i.e. teardown has
    /// not begun.
    pub closed spec fn is_open(self) -> bool {
        self.open
    }

    /// Every message the pool has handed to the shared queue, in
    /// submission order.
    pub closed spec fn attempted(self) -> Seq<Message<J>> {
        self.tx.attempted()
    }

    /// Every message the shared queue accepted from the pool, in
    /// submission order: exactly these reach the workers.
    pub closed spec fn accepted(self) -> Seq<Message<J>> {
        self.tx.accepted()
    }

    /// Well-formed pool: worker identifiers are exactly their 0-based
    /// positions, so they are unique within the pool.
    pub open spec fn wf(self) -> bool {
        forall|i: int| 0 <= i < self.size() ==> self.worker_id(i) == i
    }

    /// Create a pool of `size` workers over one fresh shared unbounded
    /// queue, with nothing enqueued yet. A pool of no workers could
    /// never make progress and is always a caller bug, so `size` is at
    /// least 1.
    ///
    /// Returns the pool together with one duplicate of the queue's
    /// receiving half per worker; the host spawns one thread per
    /// worker, each running the receive loop over its duplicate.
    pub fn new(size: usize) -> (r: (Pool<J>, Vec<crossbeam_channel::Receiver<Message<J>>>))
        requires
            1 <= size,
        ensures
            r.0.wf(),
            r.0.size() == size,
            r.0.is_open(),
            r.0.attempted() == Seq::<Message<J>>::empty(),
            r.0.accepted() == Seq::<Message<J>>::empty(),
            r.1@.len() == size,
        {
        let (tx, rx) = logged_unbounded();
        let mut workers: Vec<Worker> = Vec::new();
        let mut receivers: Vec<crossbeam_channel::Receiver<Message<J>>> = Vec::new();
        let mut i: usize = 0;
        while i < size
            invariant
                i <= size,
                workers@.len() == i,
                receivers@.len() == i,
                forall|k: int| 0 <= k < i ==> workers@[k].spec_id() == k,
            decreases size - i,
        {
            workers.push(Worker { id: i });
            receivers.push(channel_clone_receiver(&rx));
            i += 1;
        }
        (Pool { workers, tx, open: true }, receivers)
    }

    /// How many workers the pool owns.
    pub fn worker_count(&self) -> (n: usize)
        ensures
            n == self.size(),
        {
        self.workers.len()
    }

    /// The pool's workers, in construction order.
    pub fn workers(&self) -> (r: &Vec<Worker>)
        ensures
            r@.len() == self.size(),
            forall|i: int| 0 <= i < self.size() ==> r@[i].spec_id() == self.worker_id(i),
        {
        &self.workers
    }

    /// Enqueue one message, without blocking: the queue has no capacity
    /// bound. On an open pool exactly `m` is handed to the queue, once;
    /// rejected exactly when the pool no longer accepts work: as soon
    /// as teardown has begun, and also if every worker is already gone
    /// and the queue closed behind them.
    fn submit_message(&mut self, m: Message<J>) -> (r: Result<(), SubmitError>)
        ensures
            final(self).is_open() == old(self).is_open(),
            final(self).size() == old(self).size(),
            forall|i: int|
                0 <= i < old(self).size() ==> final(self).worker_id(i) == old(self).worker_id(i),
            r matches Err(e) ==> e == SubmitError::Closed,
            !old(self).is_open() ==> r is Err && *final(self) == *old(self),
            old(self).is_open() ==> final(self).attempted() == old(self).attempted().push(m),
            r is Ok ==> old(self).is_open() && final(self).accepted() == old(
                self,
            ).accepted().push(m),
            r is Err ==> final(self).accepted() == old(self).accepted(),
        {
        if !self.open {
            return Err(SubmitError::Closed);
        }
        match self.tx.send(m) {
            Ok(()) => Ok(()),
            Err(_) => Err(SubmitError::Closed),
        }
    }

    /// Submit a key event: some worker will look `code` up in the
    /// key-binding table and run the bound action, if any. Never
    /// blocks; an accepted submission put exactly one `Key(code)`
    /// message on the queue, and a rejection means the pool was closed.
    pub fn submit_key(&mut self, code: KeyCode) -> (r: Result<(), SubmitError>)
        ensures
            final(self).is_open() == old(self).is_open(),
            final(self).size() == old(self).size(),
            forall|i: int|
                0 <= i < old(self).size() ==> final(self).worker_id(i) == old(self).worker_id(i),
            r matches Err(e) ==> e == SubmitError::Closed,
            !old(self).is_open() ==> r is Err && *final(self) == *old(self),
            old(self).is_open() ==> final(self).attempted() == old(self).attempted().push(
                Message::Key(code),
            ),
            r is Ok ==> final(self).accepted() == old(self).accepted().push(Message::Key(code)),
            r is Err ==> final(self).accepted() == old(self).accepted(),
        {
        self.submit_message(Message::Key(code))
    }

    /// Submit a mouse event: some worker will look its `(kind, state)`
    /// up in the mouse-binding table and run the bound action, if any.
    /// Never blocks; an accepted submission put exactly one
    /// `Mouse(event)` message on the queue, and a rejection means the
    /// pool was closed.
    pub fn submit_mouse(&mut self, event: MouseEvent) -> (r: Result<(), SubmitError>)
        ensures
            final(self).is_open() == old(self).is_open(),
            final(self).size() == old(self).size(),
            forall|i: int|
                0 <= i < old(self).size() ==> final(self).worker_id(i) == old(self).worker_id(i),
            r matches Err(e) ==> e == SubmitError::Closed,
            !old(self).is_open() ==> r is Err && *final(self) == *old(self),
            old(self).is_open() ==> final(self).attempted() == old(self).attempted().push(
                Message::Mouse(event),
            ),
            r is Ok ==> final(self).accepted() == old(self).accepted().push(Message::Mouse(event)),
            r is Err ==> final(self).accepted() == old(self).accepted(),
        {
        self.submit_message(Message::Mouse(event))
    }

    /// Submit a deferred one-shot job: some worker will run it, and the
    /// pool observes nothing of its outcome. Never blocks; an accepted
    /// submission put exactly one `Job` message carrying `job` on the
    /// queue, and a rejection means the pool was closed.
    pub fn submit_job(&mut self, job: J) -> (r: Result<(), SubmitError>)
        ensures
            final(self).is_open() == old(self).is_open(),
            final(self).size() == old(self).size(),
            forall|i: int|
                0 <= i < old(self).size() ==> final(self).worker_id(i) == old(self).worker_id(i),
            r matches Err(e) ==> e == SubmitError::Closed,
            !old(self).is_open() ==> r is Err && *final(self) == *old(self),
            old(self).is_open() ==> final(self).attempted() == old(self).attempted().push(
                Message::Job(job),
            ),
            r is Ok ==> final(self).accepted() == old(self).accepted().push(Message::Job(job)),
            r is Err ==> final(self).accepted() == old(self).accepted(),
        {
        self.submit_message(Message::Job(job))
    }

    /// Execute a deferred job on the first available worker.
    pub fn exec(&mut self, f: J) -> (r: Result<(), SubmitError>)
        ensures
            final(self).is_open() == old(self).is_open(),
            final(self).size() == old(self).size(),
            forall|i: int|
                0 <= i < old(self).size() ==> final(self).worker_id(i) == old(self).worker_id(i),
            r matches Err(e) ==> e == SubmitError::Closed,
            !old(self).is_open() ==> r is Err && *final(self) == *old(self),
            old(self).is_open() ==> final(self).attempted() == old(self).attempted().push(
                Message::Job(f),
            ),
            r is Ok ==> final(self).accepted() == old(self).accepted().push(Message::Job(f)),
            r is Err ==> final(self).accepted() == old(self).accepted(),
        {
        self.submit_job(f)
    }

    /// Begin teardown: close the pool to further submissions and hand
    /// the queue exactly one terminal sentinel per owned worker — as
    /// many sentinels as workers, so that every worker, consuming
    /// exactly one terminal message, eventually stops. The workers'
    /// threads are then joined by the host that spawned them.
    ///
    /// Safe to call again: a pool already closed enqueues nothing.
    /// Returns how many sentinels the queue accepted; fewer than the
    /// worker count only if every receiving half was already dropped,
    /// in which case no worker is left to need one.
    pub fn shutdown(&mut self) -> (n: usize)
        ensures
            !final(self).is_open(),
            final(self).size() == old(self).size(),
            forall|i: int|
                0 <= i < old(self).size() ==> final(self).worker_id(i) == old(self).worker_id(i),
            n <= old(self).size(),
            !old(self).is_open() ==> n == 0 && *final(self) == *old(self),
            old(self).is_open() ==> final(self).attempted() == old(self).attempted() + Seq::new(
                old(self).size(),
                |k: int| Message::<J>::ShutDown,
            ),
            final(self).accepted() == old(self).accepted() + Seq::new(
                n as nat,
                |k: int| Message::<J>::ShutDown,
            ),
        {
        if !self.open {
            proof {
                assert(self.accepted() + Seq::new(0, |k: int| Message::<J>::ShutDown)
                    =~= self.accepted());
            }
            return 0;
        }
        self.open = false;
        let count = self.workers.len();
        let mut sent: usize = 0;
        let mut i: usize = 0;
        proof {
            assert(self.attempted() + Seq::new(0, |k: int| Message::<J>::ShutDown)
                =~= self.attempted());
            assert(self.accepted() + Seq::new(0, |k: int| Message::<J>::ShutDown)
                =~= self.accepted());
        }
        while i < count
            invariant
                i <= count,
                sent <= i,
                count == old(self).size(),
                self.workers == old(self).workers,
                !self.is_open(),
                self.attempted() == old(self).attempted() + Seq::new(
                    i as nat,
                    |k: int| Message::<J>::ShutDown,
                ),
                self.accepted() == old(self).accepted() + Seq::new(
                    sent as nat,
                    |k: int| Message::<J>::ShutDown,
                ),
            decreases count - i,
        {
            let r = self.tx.send(Message::ShutDown);
            proof {
                assert(self.attempted() =~= old(self).attempted() + Seq::new(
                    (i + 1) as nat,
                    |k: int| Message::<J>::ShutDown,
                ));
            }
            match r {
                Ok(()) => {
                    proof {
                        assert(self.accepted() =~= old(self).accepted() + Seq::new(
                            (sent + 1) as nat,
                            |k: int| Message::<J>::ShutDown,
                        ));
                    }
                    sent += 1;
                }
                Err(_) => {}
            }
            i += 1;
        }
        sent
    }
}

/// How many terminal sentinels each entry of `consumed` stands for, in
/// total: entry `i` is the number of sentinels worker `i` consumed.
pub open spec fn total_consumed(consumed: Seq<nat>) -> nat
    decreases consumed.len(),
{
    if consumed.len() == 0 {
        0
    } else {
        consumed[0] + total_consumed(consumed.subrange(1, consumed.len() as int))
    }
}

/// A bank of workers each consuming at most one terminal message
/// consumes at most one sentinel per worker in total.
pub proof fn lemma_total_consumed_at_most_len(consumed: Seq<nat>)
    requires
        forall|i: int| 0 <= i < consumed.len() ==> consumed[i] <= 1,
    ensures
        total_consumed(consumed) <= consumed.len(),
    decreases consumed.len(),
{
    if consumed.len() > 0 {
        let rest = consumed.subrange(1, consumed.len() as int);
        assert(forall|i: int| 0 <= i < rest.len() ==> rest[i] == consumed[i + 1] && rest[i] <= 1);
        lemma_total_consumed_at_most_len(rest);
    }
}

/// Law: the sentinel-counting argument behind teardown. A worker exits
/// only after consuming a terminal sentinel, and consumes none
/// afterwards, so each worker consumes at most one. If all the
/// sentinels of a pool that enqueued exactly one per worker are
/// consumed, then every worker consumed exactly one — none is left
/// blocked, and the wait for every worker always completes.
pub proof fn lemma_exact_sentinel_coverage(consumed: Seq<nat>)
    requires
        forall|i: int| 0 <= i < consumed.len() ==> consumed[i] <= 1,
        total_consumed(consumed) == consumed.len(),
    ensures
        forall|i: int| 0 <= i < consumed.len() ==> consumed[i] == 1,
    decreases consumed.len(),
{
    if consumed.len() > 0 {
        let rest = consumed.subrange(1, consumed.len() as int);
        assert(forall|i: int| 0 <= i < rest.len() ==> rest[i] == consumed[i + 1] && rest[i] <= 1);
        lemma_total_consumed_at_most_len(rest);
        assert(consumed[0] == 1);
        lemma_exact_sentinel_coverage(rest);
        assert(forall|i: int| 1 <= i < consumed.len() ==> consumed[i] == rest[i - 1]);
    }
}

/// Law: within a well-formed pool, worker identifiers are unique.
pub proof fn lemma_worker_ids_unique<J>(p: Pool<J>)
    requires
        p.wf(),
    ensures
        forall|i: int, j: int|
            0 <= i < p.size() && 0 <= j < p.size() && i != j ==> p.worker_id(i) != p.worker_id(j),
{
}

} // verus!
