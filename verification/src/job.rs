use vstd::prelude::*;

verus! {

/// An idempotency key: a caller-chosen name for one unit of work.
pub type Key = String;

/// How many priority lanes a queue has.
pub const PRIORITY_COUNT: usize = 3;

/// The lane a job is queued on. Each priority has its own bounded lane and
/// its own concurrency limit.
#[derive(Debug, Clone, Copy, PartialEq, Eq, Hash, Structural)]
pub enum Priority {
    Low,
    Medium,
    High,
}

impl Priority {
    /// The position of this priority's lane among the queue's lanes.
    pub open spec fn lane(self) -> int {
        match self {
            Priority::Low => 0,
            Priority::Medium => 1,
            Priority::High => 2,
        }
    }

    /// The position of this priority's lane among the queue's lanes.
    pub fn index(self) -> (i: usize)
        ensures
            i == self.lane(),
            i < PRIORITY_COUNT,
    {
        match self {
            Priority::Low => 0,
            Priority::Medium => 1,
            Priority::High => 2,
        }
    }
}

/// A unit of work: an idempotency key, the lane it runs on, and the work
/// itself, which the runtime calls once.
pub struct Job<F> {
    key: Key,
    priority: Priority,
    func: F,
}

impl<F> Job<F> {
    /// The job's idempotency key.
    pub closed spec fn key_view(&self) -> Seq<char> {
        self.key@
    }

    /// The job's priority.
    pub closed spec fn priority_view(&self) -> Priority {
        self.priority
    }

    /// The job's work.
    pub closed spec fn func_view(&self) -> F {
        self.func
    }

    /// Builds a job from its key, its priority and its work.
    pub fn new(key: Key, priority: Priority, func: F) -> (job: Job<F>)
        ensures
            job.key_view() == key@,
            job.priority_view() == priority,
            job.func_view() == func,
    {
        Job { key, priority, func }
    }

    /// The job's idempotency key.
    pub fn key(&self) -> (k: &Key)
        ensures
            k@ == self.key_view(),
    {
        &self.key
    }

    /// The job's priority.
    pub fn priority(&self) -> (p: Priority)
        ensures
            p == self.priority_view(),
    {
        self.priority
    }

    /// Takes the job apart into its key, its priority and its work.
    pub fn into_parts(self) -> (parts: (Key, Priority, F))
        ensures
            parts.0@ == self.key_view(),
            parts.1 == self.priority_view(),
            parts.2 == self.func_view(),
    {
        (self.key, self.priority, self.func)
    }
}

} // verus!
