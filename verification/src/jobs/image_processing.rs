//! The job side of the image-derivative pipeline: a bounded queue of
//! resize requests, a counting semaphore that caps how many resizer
//! invocations run at once, and the dispatcher's lifecycle, kept as an
//! explicit state machine.  The surrounding runtime owns the actual
//! channel and tasks; every decision it takes is a call into this module,
//! so the decisions are the part that is proved.

use vstd::prelude::*;

verus! {

/// One resize request: where the decoded source sits, what the
/// derivatives are named, and which breakpoint widths are wanted.
/// Immutable once submitted; the widths are processed in descending
/// order whatever order the caller supplied.
#[derive(Debug, Clone)]
pub struct JobDescriptor {
    pub id: u128,
    pub source_path: String,
    pub output_name: String,
    pub output_dir: String,
    pub widths: Vec<u32>,
}

/// The one way a submission fails: the manager has been shut down.
#[derive(Debug, Clone, Copy, PartialEq, Eq, Structural)]
pub enum QueueError {
    Closed,
}

/// What an accepted submission attempt did.
#[derive(Debug, Clone, Copy, PartialEq, Eq, Structural)]
pub enum SubmitStatus {
    /// The descriptor sits in the queue.
    Enqueued,
    /// The queue is at capacity: backpressure.  The caller suspends and
    /// offers the same descriptor again once the dispatcher has drained
    /// something; the job is not dropped and not yet accepted.
    MustWait,
}

/// Where the dispatcher loop stands.
#[derive(Debug, Clone, Copy, PartialEq, Eq, Structural)]
pub enum DispatcherState {
    /// Blocked receiving from the queue.
    Waiting,
    /// A permit is held and a job is being handed to a resizer task.
    Dispatching,
    /// The idle timeout fired; deciding whether to exit.
    IdleCheck,
    /// The loop has exited; the next submission revives it.
    Stopped,
}

/// What the runtime is asked to do after one dispatcher turn.
pub enum DispatchAction {
    /// A permit was acquired and this job taken: spawn the resizer on it.
    RunJob(JobDescriptor),
    /// Nothing to do yet: block on the queue again.
    KeepWaiting,
    /// Work is queued but every permit is taken: wait for a release.
    AwaitPermit,
    /// The queue is closed and drained, or the loop has already exited.
    Exit,
}

/// The shared concurrency state: the counting semaphore that bounds how
/// many resizer invocations run at once, and the flag that says whether
/// a dispatcher loop is live.  Only `try_acquire`/`release` ever move
/// the permit count.
pub struct PoolState {
    capacity: u32,
    available: u32,
    running: bool,
}

impl PoolState {
    /// How many permits exist in all.
    pub closed spec fn spec_capacity(&self) -> u32 {
        self.capacity
    }

    /// How many permits are not handed out right now.
    pub closed spec fn spec_available(&self) -> u32 {
        self.available
    }

    /// Whether a dispatcher loop is live.
    pub closed spec fn spec_running(&self) -> bool {
        self.running
    }

    /// How many resizer invocations hold a permit right now.
    pub open spec fn spec_in_flight(&self) -> int {
        self.spec_capacity() - self.spec_available()
    }

    /// Permits never outnumber the capacity.
    pub open spec fn wf(&self) -> bool {
        self.spec_available() <= self.spec_capacity()
    }

    /// A fresh pool: all permits free, no dispatcher live.
    pub fn new(capacity: u32) -> (r: PoolState)
        ensures
            r.wf(),
            r.spec_capacity() == capacity,
            r.spec_available() == capacity,
            !r.spec_running(),
    {
        PoolState { capacity, available: capacity, running: false }
    }

    /// Takes one permit if any is free; says whether one was granted.
    pub fn try_acquire(&mut self) -> (granted: bool)
        requires
            old(self).wf(),
        ensures
            final(self).wf(),
            final(self).spec_capacity() == old(self).spec_capacity(),
            final(self).spec_running() == old(self).spec_running(),
            granted == (old(self).spec_available() > 0),
            granted ==> final(self).spec_available() == old(self).spec_available() - 1,
            !granted ==> final(self).spec_available() == old(self).spec_available(),
    {
        if self.available > 0 {
            self.available = self.available - 1;
            true
        } else {
            false
        }
    }

    /// Gives one held permit back.
    pub fn release(&mut self)
        requires
            old(self).wf(),
            old(self).spec_in_flight() > 0,
        ensures
            final(self).wf(),
            final(self).spec_capacity() == old(self).spec_capacity(),
            final(self).spec_running() == old(self).spec_running(),
            final(self).spec_available() == old(self).spec_available() + 1,
    {
        self.available = self.available + 1;
    }

    /// Records whether a dispatcher loop is live.
    pub fn set_running(&mut self, flag: bool)
        ensures
            final(self).spec_capacity() == old(self).spec_capacity(),
            final(self).spec_available() == old(self).spec_available(),
            final(self).spec_running() == flag,
            old(self).wf() ==> final(self).wf(),
    {
        self.running = flag;
    }

    /// The free-permit count, for instrumentation.
    pub fn available(&self) -> (r: u32)
        ensures
            r == self.spec_available(),
    {
        self.available
    }

    /// The total permit count.
    pub fn capacity(&self) -> (r: u32)
        ensures
            r == self.spec_capacity(),
    {
        self.capacity
    }

    /// Whether a dispatcher loop is live.
    pub fn is_running(&self) -> (r: bool)
        ensures
            r == self.spec_running(),
    {
        self.running
    }
}

/// Bounded concurrency: however permits have been taken and given back,
/// a well-formed pool with `N` permits never has more than `N` resizer
/// invocations in flight, and never a negative number.
pub proof fn lemma_bounded_concurrency(p: PoolState)
    requires
        p.wf(),
    ensures
        0 <= p.spec_in_flight() <= p.spec_capacity(),
{
}

/// The bounded multi-producer/single-consumer channel that carries
/// descriptors from submitters to the dispatcher, modelled as the
/// sequence of descriptors it holds.
pub struct JobQueue {
    items: Vec<JobDescriptor>,
    capacity: usize,
    closed: bool,
}

impl JobQueue {
    /// The descriptors waiting in the queue, oldest first.
    pub closed spec fn spec_items(&self) -> Seq<JobDescriptor> {
        self.items@
    }

    /// How many descriptors the queue can hold.
    pub closed spec fn spec_capacity(&self) -> usize {
        self.capacity
    }

    /// Whether the sending half has been closed.
    pub closed spec fn spec_closed(&self) -> bool {
        self.closed
    }

    /// The queue never holds more than its capacity.
    pub open spec fn wf(&self) -> bool {
        self.spec_items().len() <= self.spec_capacity() && self.spec_capacity() >= 1
    }

    /// An open, empty queue.
    pub fn new(capacity: usize) -> (r: JobQueue)
        requires
            capacity >= 1,
        ensures
            r.wf(),
            r.spec_items() == Seq::<JobDescriptor>::empty(),
            r.spec_capacity() == capacity,
            !r.spec_closed(),
    {
        JobQueue { items: Vec::new(), capacity, closed: false }
    }

    /// How many descriptors are waiting.
    pub fn len(&self) -> (r: usize)
        ensures
            r == self.spec_items().len(),
    {
        self.items.len()
    }

    /// Whether the sending half has been closed.
    pub fn is_closed(&self) -> (r: bool)
        ensures
            r == self.spec_closed(),
    {
        self.closed
    }

    /// Closes the sending half; what is queued still drains.
    pub fn close(&mut self)
        ensures
            final(self).spec_items() == old(self).spec_items(),
            final(self).spec_capacity() == old(self).spec_capacity(),
            final(self).spec_closed(),
            old(self).wf() ==> final(self).wf(),
    {
        self.closed = true;
    }

    /// Offers one descriptor.  Refused only when closed; a full queue
    /// asks the caller to wait, and an open queue with room takes it.
    pub fn try_send(&mut self, d: JobDescriptor) -> (r: Result<SubmitStatus, QueueError>)
        requires
            old(self).wf(),
        ensures
            final(self).wf(),
            final(self).spec_capacity() == old(self).spec_capacity(),
            final(self).spec_closed() == old(self).spec_closed(),
            match r {
                Err(e) => e == QueueError::Closed && old(self).spec_closed() && *final(self) == *old(self),
                Ok(SubmitStatus::MustWait) => !old(self).spec_closed() && old(self).spec_items().len() == old(self).spec_capacity() && *final(self) == *old(self),
                Ok(SubmitStatus::Enqueued) => !old(self).spec_closed() && old(self).spec_items().len() < old(self).spec_capacity() && final(self).spec_items()
                    == old(self).spec_items().push(d),
            },
    {
        if self.closed {
            Err(QueueError::Closed)
        } else if self.items.len() == self.capacity {
            Ok(SubmitStatus::MustWait)
        } else {
            self.items.push(d);
            Ok(SubmitStatus::Enqueued)
        }
    }

    /// Takes the oldest descriptor, if any is waiting.
    pub fn try_recv(&mut self) -> (r: Option<JobDescriptor>)
        requires
            old(self).wf(),
        ensures
            final(self).wf(),
            final(self).spec_capacity() == old(self).spec_capacity(),
            final(self).spec_closed() == old(self).spec_closed(),
            match r {
                Option::None => old(self).spec_items().len() == 0 && *final(self) == *old(self),
                Option::Some(d) => old(self).spec_items().len() > 0 && d == old(self).spec_items()[0] && final(self).spec_items() == old(self).spec_items().drop_first(),
            },
    {
        if self.items.len() == 0 {
            None
        } else {
            let d = self.items.remove(0);
            proof {
                assert(self.items@ =~= old(self).spec_items().drop_first());
            }
            Some(d)
        }
    }
}

/// Owns the queue and the pool and runs the dispatcher's state machine.
/// One instance is built at startup and handed to every component that
/// submits jobs.
pub struct JobManager {
    queue: JobQueue,
    pool: PoolState,
    state: DispatcherState,
}

impl JobManager {
    /// The descriptors waiting to be dispatched, oldest first.
    pub closed spec fn spec_queued(&self) -> Seq<JobDescriptor> {
        self.queue.spec_items()
    }

    /// The queue's capacity.
    pub closed spec fn spec_queue_capacity(&self) -> usize {
        self.queue.spec_capacity()
    }

    /// Whether `shutdown` has been called.
    pub closed spec fn spec_closed(&self) -> bool {
        self.queue.spec_closed()
    }

    /// The dispatcher's state.
    pub closed spec fn spec_state(&self) -> DispatcherState {
        self.state
    }

    /// The pool, for its permit counts.
    pub closed spec fn spec_pool(&self) -> PoolState {
        self.pool
    }

    /// The queue and pool are well formed, and the live flag agrees with
    /// the state machine: the flag is down exactly when the loop exited.
    pub open spec fn wf(&self) -> bool {
        &&& self.queue_wf()
        &&& self.spec_pool().wf()
        &&& (self.spec_pool().spec_running() <==> !(self.spec_state() is Stopped))
    }

    /// The queue part of `wf`.
    pub open spec fn queue_wf(&self) -> bool {
        self.spec_queued().len() <= self.spec_queue_capacity() && self.spec_queue_capacity() >= 1
    }

    /// A fresh manager: empty queue, all permits free, no dispatcher yet;
    /// the first submission spawns one.
    pub fn new(queue_size: usize, concurrent_tasks: u32) -> (r: JobManager)
        requires
            queue_size >= 1,
        ensures
            r.wf(),
            r.spec_queued() == Seq::<JobDescriptor>::empty(),
            r.spec_queue_capacity() == queue_size,
            !r.spec_closed(),
            r.spec_state() == DispatcherState::Stopped,
            r.spec_pool().spec_capacity() == concurrent_tasks,
            r.spec_pool().spec_available() == concurrent_tasks,
    {
        JobManager {
            queue: JobQueue::new(queue_size),
            pool: PoolState::new(concurrent_tasks),
            state: DispatcherState::Stopped,
        }
    }

    /// Offers one descriptor to the pipeline.  It fails only when the
    /// manager has been shut down; a full queue answers `MustWait` and the
    /// caller suspends and offers again.  Every answer but `Err` leaves a
    /// live dispatcher behind: if the loop had exited out of idleness it
    /// is revived here, so no accepted job is ever stranded.
    pub fn submit_job(&mut self, d: JobDescriptor) -> (r: Result<SubmitStatus, QueueError>)
        requires
            old(self).wf(),
        ensures
            final(self).wf(),
            final(self).spec_queue_capacity() == old(self).spec_queue_capacity(),
            final(self).spec_closed() == old(self).spec_closed(),
            final(self).spec_pool().spec_capacity() == old(self).spec_pool().spec_capacity(),
            final(self).spec_pool().spec_available() == old(self).spec_pool().spec_available(),
            match r {
                Err(e) => e == QueueError::Closed && old(self).spec_closed() && *final(self) == *old(self),
                Ok(SubmitStatus::MustWait) => {
                    &&& !old(self).spec_closed()
                    &&& old(self).spec_queued().len() == old(self).spec_queue_capacity()
                    &&& final(self).spec_queued() == old(self).spec_queued()
                    &&& !(final(self).spec_state() is Stopped)
                },
                Ok(SubmitStatus::Enqueued) => {
                    &&& !old(self).spec_closed()
                    &&& old(self).spec_queued().len() < old(self).spec_queue_capacity()
                    &&& final(self).spec_queued() == old(self).spec_queued().push(d)
                    &&& !(final(self).spec_state() is Stopped)
                },
            },
    {
        let status = self.queue.try_send(d);
        match status {
            Err(e) => Err(e),
            Ok(s) => {
                self.revive_dispatcher();
                Ok(s)
            }
        }
    }

    /// Spawns the dispatcher again if it had exited out of idleness.
    fn revive_dispatcher(&mut self)
        requires
            old(self).wf(),
        ensures
            final(self).wf(),
            final(self).spec_queued() == old(self).spec_queued(),
            final(self).spec_queue_capacity() == old(self).spec_queue_capacity(),
            final(self).spec_closed() == old(self).spec_closed(),
            final(self).spec_pool().spec_capacity() == old(self).spec_pool().spec_capacity(),
            final(self).spec_pool().spec_available() == old(self).spec_pool().spec_available(),
            !(final(self).spec_state() is Stopped),
            !(old(self).spec_state() is Stopped) ==> final(self).spec_state() == old(self).spec_state(),
    {
        if !self.pool.is_running() {
            self.pool.set_running(true);
            self.state = DispatcherState::Waiting;
        }
    }

    /// Closes the sending half.  Jobs already queued or dispatched still
    /// run to completion; later submissions are refused.
    pub fn shutdown(&mut self)
        requires
            old(self).wf(),
        ensures
            final(self).wf(),
            final(self).spec_queued() == old(self).spec_queued(),
            final(self).spec_queue_capacity() == old(self).spec_queue_capacity(),
            final(self).spec_closed(),
            final(self).spec_state() == old(self).spec_state(),
            final(self).spec_pool().spec_capacity() == old(self).spec_pool().spec_capacity(),
            final(self).spec_pool().spec_available() == old(self).spec_pool().spec_available(),
    {
        self.queue.close();
    }

    /// One turn of the dispatcher loop.  `timed_out` says whether the
    /// blocking receive came back empty-handed after the idle timeout.
    /// Nothing is ever lost here: the queue either stays as it was or
    /// loses exactly its head, and then only into the returned `RunJob`.
    pub fn dispatcher_turn(&mut self, timed_out: bool) -> (a: DispatchAction)
        requires
            old(self).wf(),
        ensures
            final(self).wf(),
            final(self).spec_queue_capacity() == old(self).spec_queue_capacity(),
            final(self).spec_closed() == old(self).spec_closed(),
            final(self).spec_pool().spec_capacity() == old(self).spec_pool().spec_capacity(),
            // The loop never dies while work is pending: with a job in the
            // queue, a live dispatcher stays live through every turn.
            !(old(self).spec_state() is Stopped) && old(self).spec_queued().len() > 0 ==> !(
            final(self).spec_state() is Stopped),
            // Which action each situation owes: a waiting dispatcher with
            // work and a free permit must dispatch, with none free it must
            // wait for one, and it may exit only once closed and drained
            // or idle with nothing pending.
            old(self).spec_state() is Waiting && !timed_out && old(self).spec_queued().len() > 0
                && old(self).spec_pool().spec_available() > 0 ==> a is RunJob,
            old(self).spec_state() is Waiting && !timed_out && old(self).spec_queued().len() > 0
                && old(self).spec_pool().spec_available() == 0 ==> a is AwaitPermit,
            old(self).spec_state() is Waiting && !timed_out && old(self).spec_queued().len() == 0
                && old(self).spec_closed() ==> a is Exit,
            old(self).spec_state() is Waiting && !timed_out && old(self).spec_queued().len() == 0
                && !old(self).spec_closed() ==> a is KeepWaiting,
            old(self).spec_state() is Waiting && timed_out ==> a is KeepWaiting,
            old(self).spec_state() is Dispatching ==> a is KeepWaiting && final(self).spec_state() is Waiting,
            old(self).spec_state() is IdleCheck && old(self).spec_queued().len() > 0
                ==> a is KeepWaiting,
            old(self).spec_state() is IdleCheck && old(self).spec_queued().len() == 0
                ==> a is Exit,
            old(self).spec_state() is Stopped ==> a is Exit,
            match a {
                DispatchAction::RunJob(d) => {
                    &&& old(self).spec_state() is Waiting
                    &&& !timed_out
                    &&& old(self).spec_queued().len() > 0
                    &&& d == old(self).spec_queued()[0]
                    &&& final(self).spec_queued() == old(self).spec_queued().drop_first()
                    &&& final(self).spec_state() is Dispatching
                    &&& old(self).spec_pool().spec_available() > 0
                    &&& final(self).spec_pool().spec_available() == old(self).spec_pool().spec_available() - 1
                },
                DispatchAction::AwaitPermit => {
                    &&& final(self).spec_queued() == old(self).spec_queued()
                    &&& old(self).spec_state() is Waiting
                    &&& !timed_out
                    &&& old(self).spec_queued().len() > 0
                    &&& old(self).spec_pool().spec_available() == 0
                    &&& final(self).spec_state() == old(self).spec_state()
                    &&& final(self).spec_pool().spec_available() == old(self).spec_pool().spec_available()
                },
                DispatchAction::KeepWaiting => {
                    &&& final(self).spec_queued() == old(self).spec_queued()
                    &&& final(self).spec_pool().spec_available() == old(self).spec_pool().spec_available()
                    &&& !(final(self).spec_state() is Stopped)
                    &&& (old(self).spec_state() is Waiting && timed_out ==> final(self).spec_state() is IdleCheck)
                    &&& (old(self).spec_state() is IdleCheck ==> old(self).spec_queued().len() > 0
                        && final(self).spec_state() is Waiting)
                },
                DispatchAction::Exit => {
                    &&& final(self).spec_queued() == old(self).spec_queued()
                    &&& final(self).spec_pool().spec_available() == old(self).spec_pool().spec_available()
                    &&& final(self).spec_state() is Stopped
                    &&& (old(self).spec_state() is Stopped ==> *final(self) == *old(self))
                    &&& (!(old(self).spec_state() is Stopped) ==> old(self).spec_queued().len()
                        == 0)
                },
            },
    {
        match self.state {
            DispatcherState::Stopped => DispatchAction::Exit,
            DispatcherState::Dispatching => {
                // The spawned task has been handed over; back to the queue.
                self.state = DispatcherState::Waiting;
                DispatchAction::KeepWaiting
            }
            DispatcherState::IdleCheck => {
                if self.queue.len() > 0 {
                    // Work appeared while idling: keep draining.
                    self.state = DispatcherState::Waiting;
                    DispatchAction::KeepWaiting
                } else {
                    // Idle with nothing pending: free the task; the next
                    // submission revives the loop.
                    self.state = DispatcherState::Stopped;
                    self.pool.set_running(false);
                    DispatchAction::Exit
                }
            }
            DispatcherState::Waiting => {
                if timed_out {
                    self.state = DispatcherState::IdleCheck;
                    DispatchAction::KeepWaiting
                } else if self.queue.len() > 0 {
                    if self.pool.try_acquire() {
                        let d = self.queue.try_recv();
                        match d {
                            Some(job) => {
                                self.state = DispatcherState::Dispatching;
                                DispatchAction::RunJob(job)
                            }
                            None => {
                                // Unreachable: the queue was just seen nonempty.
                                DispatchAction::KeepWaiting
                            }
                        }
                    } else {
                        DispatchAction::AwaitPermit
                    }
                } else if self.queue.is_closed() {
                    self.state = DispatcherState::Stopped;
                    self.pool.set_running(false);
                    DispatchAction::Exit
                } else {
                    DispatchAction::KeepWaiting
                }
            }
        }
    }

    /// A resizer task finished and gives its permit back.
    pub fn job_finished(&mut self)
        requires
            old(self).wf(),
            old(self).spec_pool().spec_in_flight() > 0,
        ensures
            final(self).wf(),
            final(self).spec_queued() == old(self).spec_queued(),
            final(self).spec_queue_capacity() == old(self).spec_queue_capacity(),
            final(self).spec_closed() == old(self).spec_closed(),
            final(self).spec_state() == old(self).spec_state(),
            final(self).spec_pool().spec_capacity() == old(self).spec_pool().spec_capacity(),
            final(self).spec_pool().spec_available() == old(self).spec_pool().spec_available() + 1,
    {
        self.pool.release();
    }

    /// How many descriptors are waiting.
    pub fn queued_len(&self) -> (r: usize)
        ensures
            r == self.spec_queued().len(),
    {
        self.queue.len()
    }

    /// The free-permit count, for instrumentation.
    pub fn permits_available(&self) -> (r: u32)
        ensures
            r == self.spec_pool().spec_available(),
    {
        self.pool.available()
    }

    /// Whether the dispatcher loop is live.
    pub fn dispatcher_live(&self) -> (r: bool)
        ensures
            r == !(self.spec_state() is Stopped),
    {
        self.state_not_stopped()
    }

    fn state_not_stopped(&self) -> (r: bool)
        ensures
            r == !(self.spec_state() is Stopped),
    {
        match self.state {
            DispatcherState::Stopped => false,
            _ => true,
        }
    }
}

/// No job silently vanishes.  A dispatcher turn takes at most the head
/// of the queue, and then only into the `RunJob` it hands the runtime:
/// every job that was queued before a turn is still queued after it or
/// was dispatched by it.  Together with `submit_job`'s guarantee that an
/// accepted job stands in the queue with a live dispatcher, and the
/// clause above that a live dispatcher never exits while the queue is
/// nonempty, every accepted job is eventually handed to a resizer.
pub proof fn lemma_turn_conserves_jobs(
    before: Seq<JobDescriptor>,
    after: Seq<JobDescriptor>,
    handed: Option<JobDescriptor>,
)
    requires
        match handed {
            Option::Some(d) => before.len() > 0 && d == before[0] && after == before.drop_first(),
            Option::None => after == before,
        },
    ensures
        forall|j: JobDescriptor|
            #[trigger] before.contains(j) ==> after.contains(j) || handed == Some(j),
{
    assert forall|j: JobDescriptor| #[trigger] before.contains(j) implies after.contains(j)
        || handed == Some(j) by {
        let i = choose|i: int| 0 <= i < before.len() && before[i] == j;
        match handed {
            Option::Some(d) => {
                if i > 0 {
                    assert(after[i - 1] == j);
                    assert(after.contains(j));
                }
            }
            Option::None => {
                assert(after.contains(j));
            }
        }
    }
}

} // verus!
