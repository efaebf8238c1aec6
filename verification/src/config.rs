use vstd::prelude::*;

use crate::job::{Priority, PRIORITY_COUNT};

verus! {

/// How many jobs may wait in a lane that was not configured.
pub const DEFAULT_CAPACITY: usize = 100;

/// How many jobs may run at once in a lane that was not configured.
pub const DEFAULT_PERMITS: usize = 5;

/// A lane's budget: how many jobs may wait in it (`capacity`) and how many
/// may run at once (`permits`).
#[derive(Debug, Clone, Copy, PartialEq, Eq, Structural)]
pub struct LaneConfig {
    pub capacity: usize,
    pub permits: usize,
}

impl LaneConfig {
    /// The budget of a lane that was not configured.
    pub open spec fn unconfigured() -> LaneConfig {
        LaneConfig { capacity: DEFAULT_CAPACITY, permits: DEFAULT_PERMITS }
    }
}

impl Default for LaneConfig {
    fn default() -> (c: LaneConfig)
        ensures
            c == LaneConfig::unconfigured(),
    {
        LaneConfig { capacity: DEFAULT_CAPACITY, permits: DEFAULT_PERMITS }
    }
}

/// The configuration of a queue before it starts: one budget per priority.
#[derive(Debug)]
pub struct QueueBuilder {
    lanes: [LaneConfig; PRIORITY_COUNT],
}

impl QueueBuilder {
    /// The budgets, in lane order (see [`Priority::index`]).
    pub closed spec fn lanes(&self) -> Seq<LaneConfig> {
        self.lanes@
    }

    /// A queue has one lane per priority.
    pub proof fn lemma_lane_count(&self)
        ensures
            self.lanes().len() == PRIORITY_COUNT,
    {
    }

    /// The budget of `priority`'s lane.
    pub open spec fn lane_of(&self, priority: Priority) -> LaneConfig {
        self.lanes()[priority.lane()]
    }

    /// Sets the budget of `priority`'s lane, leaving the others as they were.
    pub fn lane(self, priority: Priority, config: LaneConfig) -> (b: Self)
        ensures
            b.lanes() == self.lanes().update(priority.lane(), config),
            b.lanes().len() == PRIORITY_COUNT,
    {
        let mut b = self;
        b.lanes[priority.index()] = config;
        b
    }

    /// The budget of `priority`'s lane.
    pub fn lane_config(&self, priority: Priority) -> (c: LaneConfig)
        ensures
            c == self.lane_of(priority),
    {
        self.lanes[priority.index()]
    }
}

impl Default for QueueBuilder {
    fn default() -> (b: QueueBuilder)
        ensures
            forall|q: Priority| #[trigger] b.lane_of(q) == LaneConfig::unconfigured(),
            b.lanes().len() == PRIORITY_COUNT,
    {
        let lane = LaneConfig::default();
        let b = QueueBuilder { lanes: [lane, lane, lane] };
        assert(b.lanes() =~= seq![LaneConfig::unconfigured(), LaneConfig::unconfigured(), LaneConfig::unconfigured()]);
        b
    }
}

} // verus!
