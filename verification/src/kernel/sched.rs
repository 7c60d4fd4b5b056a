//! Round-robin scheduling of processes.
use vstd::prelude::*;
use std::collections::VecDeque;
use std::sync::Arc;
use crate::kernel::process::Process;

verus! {

/// Highest process priority.
pub const MAX_PRIORITY: usize = 15;
/// Scheduler ticks per second (one every millisecond).
pub const OS_TICK_PER_SECOND: u64 = 1000;

/// A scheduler: it keeps processes ready to run and picks the next one.
pub trait Scheduler {
    /// The processes ready to run, in the order they will run.
    spec fn ready(&self) -> Seq<Arc<Process>>;

    /// Make `process` ready to run.
    fn push(&mut self, process: Arc<Process>);

    /// Take the next process to run, if any.
    fn pop(&mut self) -> (r: Option<Arc<Process>>);

    /// React to a scheduling tick.
    fn schedule(&mut self);

    /// Take the process to switch to now; there must be one.
    fn run(&mut self) -> (r: Arc<Process>)
        requires
            old(self).ready().len() > 0,
    ;
}

/// The round-robin scheduler: a first-in first-out queue of ready processes.
pub struct RRScheduler {
    ready_list: VecDeque<Arc<Process>>,
    current: Option<Arc<Process>>,
    os_tick: u128,
}

impl RRScheduler {
    /// A scheduler with no process.
    pub fn new() -> (r: RRScheduler)
        ensures
            r.ready() == Seq::<Arc<Process>>::empty(),
            r.current() is None,
            r.os_tick() == 0,
    {
        RRScheduler { ready_list: VecDeque::new(), current: None, os_tick: 0 }
    }

    /// The process running now, if any.
    pub closed spec fn current(&self) -> Option<Arc<Process>> {
        self.current
    }

    /// Scheduling ticks counted so far.
    pub closed spec fn os_tick(&self) -> u128 {
        self.os_tick
    }

    /// Looking a process up by name finds none: processes are not indexed.
    pub fn find_by_name(&self, _name: &str) -> (r: Option<&Process>)
        ensures
            r is None,
    {
        None
    }

    /// Looking a process up by identifier finds none: processes are not
    /// indexed.
    pub fn find(&self, _pid: usize) -> (r: Option<&Process>)
        ensures
            r is None,
    {
        None
    }

    /// The names of the ready processes, in queue order.
    pub fn ready_names(&self) -> (r: Vec<[u8; 10]>)
        ensures
            r@.len() == self.ready().len(),
            forall|i: int| 0 <= i < r@.len() ==> r@[i] == self.ready()[i].name,
    {
        let mut r: Vec<[u8; 10]> = Vec::new();
        let n = self.ready_list.len();
        let mut i: usize = 0;
        while i < n
            invariant
                n == self.ready_list@.len(),
                i <= n,
                r@.len() == i,
                forall|j: int| 0 <= j < i ==> r@[j] == self.ready_list@[j].name,
            decreases n - i,
        {
            r.push(self.ready_list[i].name);
            i = i + 1;
        }
        r
    }
}

impl Scheduler for RRScheduler {
    closed spec fn ready(&self) -> Seq<Arc<Process>> {
        self.ready_list@
    }

    /// Append `process` to the back of the queue.
    fn push(&mut self, process: Arc<Process>)
        ensures
            final(self).ready() == old(self).ready().push(process),
            final(self).current() == old(self).current(),
            final(self).os_tick() == old(self).os_tick(),
    {
        self.ready_list.push_back(process);
    }

    /// Take the process at the front of the queue, if any.
    fn pop(&mut self) -> (r: Option<Arc<Process>>)
        ensures
            old(self).ready().len() == 0 ==> r is None && final(self).ready() == old(self).ready(),
            old(self).ready().len() > 0 ==> r == Some(old(self).ready()[0]) && final(self).ready()
                == old(self).ready().subrange(1, old(self).ready().len() as int),
            final(self).current() == old(self).current(),
            final(self).os_tick() == old(self).os_tick(),
    {
        self.ready_list.pop_front()
    }

    /// Scheduling ticks change nothing: the running process keeps the core
    /// until it yields.
    fn schedule(&mut self)
        ensures
            final(self).ready() == old(self).ready(),
            final(self).current() == old(self).current(),
            final(self).os_tick() == old(self).os_tick(),
    {
    }

    /// Take the process at the front of the queue to switch to it.
    fn run(&mut self) -> (r: Arc<Process>)
        ensures
            r == old(self).ready()[0],
            final(self).ready() == old(self).ready().subrange(1, old(self).ready().len() as int),
            final(self).current() == old(self).current(),
            final(self).os_tick() == old(self).os_tick(),
    {
        match self.ready_list.pop_front() {
            Some(p) => p,
            None => vstd::pervasive::unreached(),
        }
    }
}

/// Processes run in the order they were made ready: a process pushed on an
/// empty queue is the next taken; pushed behind others, it leaves the front
/// to them and waits at the back.
pub proof fn lemma_fifo(q: Seq<Arc<Process>>, p: Arc<Process>)
    ensures
        q.len() == 0 ==> q.push(p)[0] == p && q.push(p).subrange(1, 1) == Seq::<Arc<Process>>::empty(),
        q.len() > 0 ==> q.push(p)[0] == q[0] && q.push(p).subrange(1, q.len() + 1int) == q.subrange(
            1,
            q.len() as int,
        ).push(p),
{
    if q.len() == 0 {
        assert(q.push(p).subrange(1, 1) =~= Seq::<Arc<Process>>::empty());
    } else {
        assert(q.push(p).subrange(1, q.len() + 1int) =~= q.subrange(1, q.len() as int).push(p));
    }
}

} // verus!
