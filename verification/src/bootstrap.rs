//! Starting a server: where it binds, how many workers it runs, and the pool
//! of workers that comes of it.

use vstd::prelude::*;
use crate::worker::{Action, Event, WorkerState};

verus! {

/// Why a bind target gave no address. Either one is fatal: there is no retry
/// and no fallback address.
#[derive(Clone, Copy, Debug, PartialEq, Eq, Structural)]
pub enum BindError {
    /// The target was understood but resolved to no address.
    Unresolved,
    /// The target could not be read as an address at all.
    Unparsable,
}

impl BindError {
    /// The message that goes with the fatal failure.
    pub fn message(&self) -> (text: &'static str)
        ensures
            text@ == match *self {
                BindError::Unresolved => "unable to resolve listener address"@,
                BindError::Unparsable => "unable to parse listener address"@,
            },
    {
        match self {
            BindError::Unresolved => "unable to resolve listener address",
            BindError::Unparsable => "unable to parse listener address",
        }
    }
}

/// The address that a resolution yields: the first one it found.
pub open spec fn picked<A, E>(resolved: Result<Option<A>, E>) -> Result<A, BindError> {
    match resolved {
        Ok(Some(addr)) => Ok(addr),
        Ok(None) => Err(BindError::Unresolved),
        Err(_) => Err(BindError::Unparsable),
    }
}

/// Picks the bind address from what resolving the target gave: the first
/// address found, if the target could be read and resolved to any.
pub fn pick_addr<A, E>(resolved: Result<Option<A>, E>) -> (addr: Result<A, BindError>)
    ensures
        addr == picked(resolved),
{
    match resolved {
        Ok(Some(addr)) => Ok(addr),
        Ok(None) => Err(BindError::Unresolved),
        Err(_) => Err(BindError::Unparsable),
    }
}

/// Calls `num_cpus::get`, the number of logical processors that this process
/// may use. Trusted: the count is at least 1, as the function's documentation
/// promises. What it is beyond that depends on the machine.
#[verifier::external_body]
fn logical_processors() -> (count: usize)
    ensures
        count >= 1,
{
    num_cpus::get()
}

/// What all workers share: the bind address, the number of workers and the
/// handler factory. Nothing changes it once it is made.
#[derive(Debug)]
pub struct ServerConfig<A, NH> {
    addr: A,
    threads: usize,
    new_handler: NH,
}

impl<A, NH> ServerConfig<A, NH> {
    /// A server has at least one worker: the thread that starts it.
    #[verifier::type_invariant]
    spec fn has_a_worker(&self) -> bool {
        self.threads >= 1
    }

    /// The resolved bind address.
    pub closed spec fn spec_addr(&self) -> A {
        self.addr
    }

    /// The number of workers.
    pub closed spec fn spec_threads(&self) -> usize {
        self.threads
    }

    /// The handler factory.
    pub closed spec fn spec_new_handler(&self) -> NH {
        self.new_handler
    }

    /// The configuration of a server with `threads` workers, bound to the
    /// address that `resolved` yields; the bind error where it yields none.
    pub fn new<E>(resolved: Result<Option<A>, E>, threads: usize, new_handler: NH) -> (config: Result<
        Self,
        BindError,
    >)
        requires
            threads >= 1,
        ensures
            match config {
                Ok(made) => picked(resolved) == Ok::<A, BindError>(made.spec_addr())
                    && made.spec_threads() == threads && made.spec_new_handler() == new_handler,
                Err(error) => picked(resolved) == Err::<A, BindError>(error),
            },
    {
        match pick_addr(resolved) {
            Ok(addr) => Ok(ServerConfig { addr, threads, new_handler }),
            Err(error) => Err(error),
        }
    }

    /// The configuration of a server with one worker for each logical
    /// processor, bound to the address that `resolved` yields; the bind error
    /// where it yields none.
    pub fn with_default_threads<E>(resolved: Result<Option<A>, E>, new_handler: NH) -> (config:
        Result<Self, BindError>)
        ensures
            match config {
                Ok(made) => picked(resolved) == Ok::<A, BindError>(made.spec_addr())
                    && made.spec_threads() >= 1 && made.spec_new_handler() == new_handler,
                Err(error) => picked(resolved) == Err::<A, BindError>(error),
            },
    {
        let threads: usize = logical_processors();
        Self::new(resolved, threads, new_handler)
    }

    /// The resolved bind address.
    pub fn addr(&self) -> (addr: &A)
        ensures
            *addr == self.spec_addr(),
    {
        &self.addr
    }

    /// The number of workers: never none.
    pub fn threads(&self) -> (threads: usize)
        ensures
            threads == self.spec_threads(),
            threads >= 1,
    {
        proof {
            use_type_invariant(self);
        }
        self.threads
    }

    /// The number of threads to spawn: the caller's own thread runs one of
    /// the workers.
    pub fn additional_threads(&self) -> (spawned: usize)
        ensures
            spawned == self.spec_threads() - 1,
    {
        proof {
            use_type_invariant(self);
        }
        self.threads - 1
    }

    /// The handler factory.
    pub fn new_handler(&self) -> (new_handler: &NH)
        ensures
            *new_handler == self.spec_new_handler(),
    {
        &self.new_handler
    }
}

/// The workers of one server, each with a state of its own.
#[derive(Debug)]
pub struct Pool {
    workers: Vec<WorkerState>,
}

impl View for Pool {
    type V = Seq<WorkerState>;

    closed spec fn view(&self) -> Seq<WorkerState> {
        self.workers@
    }
}

/// A pool of `threads` workers that have not started yet.
pub open spec fn launched(threads: nat) -> Seq<WorkerState> {
    Seq::new(threads, |i: int| WorkerState::Starting)
}

/// The pool after `worker` has taken `event`: that worker has moved, no other.
pub open spec fn delivered<A>(pool: Seq<WorkerState>, worker: int, event: Event<A>) -> Seq<
    WorkerState,
> {
    pool.update(worker, pool[worker].next_state(event))
}

/// The pool after its first `count` workers have each been told that their
/// scheduling context exists.
pub open spec fn contexts_created(pool: Seq<WorkerState>, count: nat) -> Seq<WorkerState>
    decreases count,
{
    if count == 0 {
        pool
    } else {
        delivered(contexts_created(pool, (count - 1) as nat), count - 1, Event::<()>::ContextCreated)
    }
}

/// The number of workers in `pool` that still take connections.
pub open spec fn serving_count(pool: Seq<WorkerState>) -> nat
    decreases pool.len(),
{
    if pool.len() == 0 {
        0
    } else {
        serving_count(pool.drop_last()) + if pool.last().is_serving() {
            1nat
        } else {
            0nat
        }
    }
}

impl Pool {
    /// A pool of `threads` workers, none of which has started yet.
    pub fn launch(threads: usize) -> (pool: Pool)
        requires
            threads >= 1,
        ensures
            pool@ == launched(threads as nat),
    {
        let mut workers: Vec<WorkerState> = Vec::new();
        let mut made: usize = 0;
        while made < threads
            invariant
                made <= threads,
                workers@ == launched(made as nat),
            decreases threads - made,
        {
            workers.push(WorkerState::Starting);
            made = made + 1;
            assert(workers@ =~= launched(made as nat));
        }
        Pool { workers }
    }

    /// The number of workers.
    pub fn len(&self) -> (count: usize)
        ensures
            count == self@.len(),
    {
        self.workers.len()
    }

    /// The state of one worker.
    pub fn state(&self, worker: usize) -> (state: WorkerState)
        requires
            worker < self@.len(),
        ensures
            state == self@[worker as int],
    {
        self.workers[worker]
    }

    /// Hands `event` to one worker and returns what that worker's owner does
    /// next. No other worker is touched.
    pub fn deliver<A>(&mut self, worker: usize, event: Event<A>) -> (action: Action<A>)
        requires
            worker < old(self)@.len(),
        ensures
            final(self)@ == delivered(old(self)@, worker as int, event),
            action == old(self)@[worker as int].action(event),
    {
        let (state, action) = self.workers[worker].step(event);
        self.workers.set(worker, state);
        action
    }

    /// The number of workers that still take connections.
    pub fn serving(&self) -> (count: usize)
        ensures
            count == serving_count(self@),
    {
        let mut count: usize = 0;
        let mut seen: usize = 0;
        while seen < self.workers.len()
            invariant
                seen <= self.workers@.len(),
                count <= seen,
                count == serving_count(self.workers@.take(seen as int)),
            decreases self.workers@.len() - seen,
        {
            let state = self.workers[seen];
            proof {
                assert(self.workers@.take(seen + 1).drop_last() =~= self.workers@.take(seen as int));
            }
            if state == WorkerState::Accepting || state == WorkerState::Dispatching {
                count = count + 1;
            }
            seen = seen + 1;
        }
        proof {
            assert(self.workers@.take(seen as int) =~= self.workers@);
        }
        count
    }
}

/// A pool launched with `threads` workers has exactly that many, and once
/// each has its scheduling context every one of them accepts.
pub proof fn lemma_every_worker_accepts(threads: nat)
    ensures
        contexts_created(launched(threads), threads).len() == threads,
        forall|w: int|
            0 <= w < threads ==> (#[trigger] contexts_created(launched(threads), threads)[w])
                == WorkerState::Accepting,
        serving_count(contexts_created(launched(threads), threads)) == threads,
{
    lemma_contexts_created(launched(threads), threads);
    lemma_serving_count_of_all_serving(contexts_created(launched(threads), threads));
}

/// Telling the first `count` workers of a pool of starting workers that their
/// context exists makes those accept and leaves the others starting.
proof fn lemma_contexts_created(pool: Seq<WorkerState>, count: nat)
    requires
        count <= pool.len(),
        forall|w: int| 0 <= w < pool.len() ==> pool[w] == WorkerState::Starting,
    ensures
        contexts_created(pool, count).len() == pool.len(),
        forall|w: int|
            0 <= w < count ==> (#[trigger] contexts_created(pool, count)[w])
                == WorkerState::Accepting,
        forall|w: int|
            count <= w < pool.len() ==> (#[trigger] contexts_created(pool, count)[w])
                == WorkerState::Starting,
    decreases count,
{
    if count > 0 {
        lemma_contexts_created(pool, (count - 1) as nat);
    }
}

/// Where every worker serves, the serving workers are all of them.
proof fn lemma_serving_count_of_all_serving(pool: Seq<WorkerState>)
    requires
        forall|w: int| 0 <= w < pool.len() ==> (#[trigger] pool[w]).is_serving(),
    ensures
        serving_count(pool) == pool.len(),
    decreases pool.len(),
{
    if pool.len() > 0 {
        lemma_serving_count_of_all_serving(pool.drop_last());
    }
}

/// What happens to one worker happens to it alone: whatever event it takes,
/// a fatal one too, every other worker of the pool is where it was.
pub proof fn lemma_workers_are_independent<A>(
    pool: Seq<WorkerState>,
    worker: int,
    event: Event<A>,
    other: int,
)
    requires
        0 <= worker < pool.len(),
        0 <= other < pool.len(),
        other != worker,
    ensures
        delivered(pool, worker, event).len() == pool.len(),
        delivered(pool, worker, event)[other] == pool[other],
{
}

/// A fatal failure of one worker's accept loop takes exactly that worker
/// out of service: of `n` serving workers, `n - 1` go on.
pub proof fn lemma_one_failure_leaves_the_rest(pool: Seq<WorkerState>, worker: int)
    requires
        0 <= worker < pool.len(),
        pool[worker] == WorkerState::Accepting,
    ensures
        serving_count(delivered(pool, worker, Event::<()>::AcceptFailed)) == serving_count(pool)
            - 1,
    decreases pool.len(),
{
    let after = delivered(pool, worker, Event::<()>::AcceptFailed);
    if worker == pool.len() - 1 {
        assert(after.drop_last() =~= pool.drop_last());
    } else {
        lemma_one_failure_leaves_the_rest(pool.drop_last(), worker);
        assert(after.drop_last() =~= delivered(
            pool.drop_last(),
            worker,
            Event::<()>::AcceptFailed,
        ));
    }
}

} // verus!
