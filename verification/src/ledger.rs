use vstd::prelude::*;

use crate::error::PushError;
use crate::keymap::KeyMap;
use crate::outcome::{Outcome, OutcomeView};
use crate::state::{State, StateView};

verus! {

/// What a push of a job is answered with: the job was queued and the caller
/// holds a handle on its outcome; the key already completed and its output
/// comes from cache; or a job with the key is already queued or running and
/// the caller holds a handle on that job's outcome.
#[derive(Debug)]
pub enum Accepted<H> {
    Queued(H),
    Cached { output: String },
    InFlight(H),
}

/// How the dedup table answers a push of a key, as a mathematical value.
pub enum Admission {
    /// The key completed; its output is handed back and nothing runs.
    Cached { output: Seq<char> },
    /// A job with the key is queued or running; the caller joins it.
    Joined,
    /// The key is free (never seen, or its last job failed); the caller's
    /// job is the one that runs.
    Claimed,
}

impl<H> Accepted<H> {
    /// Which of the three answers this is.
    pub open spec fn admission(self) -> Admission {
        match self {
            Accepted::Queued(_) => Admission::Claimed,
            Accepted::Cached { output } => Admission::Cached { output: output@ },
            Accepted::InFlight(_) => Admission::Joined,
        }
    }
}

/// The dedup table as mathematical maps: the state recorded for each key,
/// and the callers (by their handles of type `W`) waiting on each key's
/// outcome, in the order they came.
#[verifier::ext_equal]
pub struct LedgerView<W> {
    pub states: Map<Seq<char>, StateView>,
    pub waiters: Map<Seq<char>, Seq<W>>,
}

/// One step the queue takes on its table, as a mathematical value.
pub enum Step<W> {
    /// A push of `key` by a caller who waits through `waiter`.
    Claim { key: Seq<char>, waiter: W },
    /// The lane took the claimed job (`refused` is `None`) or refused it
    /// with the given text.
    Send { key: Seq<char>, refused: Option<Seq<char>> },
    /// A worker started the job.
    Begin { key: Seq<char> },
    /// The job ended; `reported` is `None` where its work panicked.
    Finish { key: Seq<char>, reported: Option<OutcomeView> },
    /// The claim was abandoned before the job reached the lane.
    Release { key: Seq<char> },
}

impl<W> Step<W> {
    /// This step ends the job in flight for `k`: it records how the job
    /// ended and takes out the key's waiters.
    pub open spec fn ends(self, k: Seq<char>) -> bool {
        match self {
            Step::Send { key, refused } => key == k && refused is Some,
            Step::Finish { key, .. } => key == k,
            Step::Release { key } => key == k,
            _ => false,
        }
    }
}

impl<W> LedgerView<W> {
    /// The table of a queue that has seen no key.
    pub open spec fn empty() -> Self {
        LedgerView { states: Map::empty(), waiters: Map::empty() }
    }

    /// The callers waiting on `key`'s outcome.
    pub open spec fn waiting(self, key: Seq<char>) -> Seq<W> {
        match self.waiters.get(key) {
            Some(w) => w,
            None => Seq::empty(),
        }
    }

    /// How a push of `key` is answered.
    pub open spec fn decide(self, key: Seq<char>) -> Admission {
        match self.states.get(key) {
            Some(StateView::Completed { output }) => Admission::Cached { output },
            Some(StateView::Pending) => Admission::Joined,
            Some(StateView::Processing) => Admission::Joined,
            _ => Admission::Claimed,
        }
    }

    /// The table after a push of `key` by a caller who waits through
    /// `waiter`: a cached key changes nothing; a joining caller is added to
    /// the key's waiters; a claiming caller is added too and the key becomes
    /// pending.
    pub open spec fn claim(self, key: Seq<char>, waiter: W) -> Self {
        match self.decide(key) {
            Admission::Cached { .. } => self,
            Admission::Joined => LedgerView {
                states: self.states,
                waiters: self.waiters.insert(key, self.waiting(key).push(waiter)),
            },
            Admission::Claimed => LedgerView {
                states: self.states.insert(key, StateView::Pending),
                waiters: self.waiters.insert(key, self.waiting(key).push(waiter)),
            },
        }
    }

    /// The table after the lane refused `key`'s job with `reason`: the key
    /// records the failure and its waiters are dropped, which tells each of
    /// them the job was lost.
    pub open spec fn fail_send(self, key: Seq<char>, reason: Seq<char>) -> Self {
        LedgerView {
            states: self.states.insert(key, StateView::Failed { reason }),
            waiters: self.waiters.remove(key),
        }
    }

    /// The table after a worker started `key`'s job.
    pub open spec fn begin(self, key: Seq<char>) -> Self {
        LedgerView { states: self.states.insert(key, StateView::Processing), waiters: self.waiters }
    }

    /// The table after `key`'s job ended, with the outcome its work reported
    /// or, where it panicked, none: how it ended is recorded and the key's
    /// waiters are taken out to be told.
    pub open spec fn finish(self, key: Seq<char>, reported: Option<OutcomeView>) -> Self {
        LedgerView {
            states: self.states.insert(key, StateView::ended(reported)),
            waiters: self.waiters.remove(key),
        }
    }

    /// The table after a claim of `key` was abandoned before its job reached
    /// the lane: the key is forgotten and its waiters dropped.
    pub open spec fn release(self, key: Seq<char>) -> Self {
        LedgerView { states: self.states.remove(key), waiters: self.waiters.remove(key) }
    }

    /// Whether the queue's protocol lets `step` happen now: a claimed job is
    /// refused by its lane, started, or abandoned only while it is pending,
    /// and ends only while it is running.
    pub open spec fn allows(self, step: Step<W>) -> bool {
        match step {
            Step::Claim { .. } => true,
            Step::Send { key, refused } => refused is Some ==> self.states.get(key) == Some(
                StateView::Pending,
            ),
            Step::Begin { key } => self.states.get(key) == Some(StateView::Pending),
            Step::Finish { key, .. } => self.states.get(key) == Some(StateView::Processing),
            Step::Release { key } => self.states.get(key) == Some(StateView::Pending),
        }
    }

    /// The table after `step`.
    pub open spec fn apply(self, step: Step<W>) -> Self {
        match step {
            Step::Claim { key, waiter } => self.claim(key, waiter),
            Step::Send { key, refused } => match refused {
                Some(reason) => self.fail_send(key, reason),
                None => self,
            },
            Step::Begin { key } => self.begin(key),
            Step::Finish { key, reported } => self.finish(key, reported),
            Step::Release { key } => self.release(key),
        }
    }

    /// The table after `steps`, taken in order.
    pub open spec fn run(self, steps: Seq<Step<W>>) -> Self
        decreases steps.len(),
    {
        if steps.len() == 0 {
            self
        } else {
            self.apply(steps[0]).run(steps.drop_first())
        }
    }

    /// Whether the protocol lets each of `steps` happen when it comes.
    pub open spec fn allows_run(self, steps: Seq<Step<W>>) -> bool
        decreases steps.len(),
    {
        if steps.len() == 0 {
            true
        } else {
            self.allows(steps[0]) && self.apply(steps[0]).allows_run(steps.drop_first())
        }
    }
}

/// The dedup table of a queue: the state of every key it has seen, and the
/// callers waiting on each key's outcome. A waiting caller is held by a
/// handle of type `W` through which it is told the outcome.
pub struct Ledger<W> {
    states: KeyMap<State>,
    waiters: KeyMap<Vec<W>>,
}

impl<W> View for Ledger<W> {
    type V = LedgerView<W>;

    closed spec fn view(&self) -> LedgerView<W> {
        LedgerView {
            states: self.states@.map_values(|s: State| s@),
            waiters: self.waiters@.map_values(|v: Vec<W>| v@),
        }
    }
}

impl<W> Ledger<W> {
    /// The table's internal consistency.
    #[verifier::type_invariant]
    spec fn wf(self) -> bool {
        self.states.wf() && self.waiters.wf()
    }

    /// A table that has seen no key.
    pub fn new() -> (l: Self)
        ensures
            l@ == LedgerView::<W>::empty(),
    {
        let l = Ledger { states: KeyMap::new(), waiters: KeyMap::new() };
        assert(l@ =~= LedgerView::<W>::empty());
        l
    }

    /// Sets `key`'s state to `state`.
    fn record(&mut self, key: &String, state: State)
        ensures
            final(self)@ == (LedgerView {
                states: old(self)@.states.insert(key@, state@),
                waiters: old(self)@.waiters,
            }),
    {
        proof {
            use_type_invariant(&*self);
        }
        let mut states = KeyMap::new();
        std::mem::swap(&mut states, &mut self.states);
        states.insert(key.clone(), state);
        self.states = states;
        assert(self@.states =~= old(self)@.states.insert(key@, state@));
        assert(self@ =~= (LedgerView {
            states: old(self)@.states.insert(key@, state@),
            waiters: old(self)@.waiters,
        }));
    }

    /// Takes `key`'s waiters out of the table.
    fn take_waiters(&mut self, key: &String) -> (r: Vec<W>)
        ensures
            final(self)@ == (LedgerView {
                states: old(self)@.states,
                waiters: old(self)@.waiters.remove(key@),
            }),
            r@ == old(self)@.waiting(key@),
    {
        proof {
            use_type_invariant(&*self);
        }
        let mut waiters = KeyMap::new();
        std::mem::swap(&mut waiters, &mut self.waiters);
        let r = match waiters.remove(key) {
            Some(v) => v,
            None => Vec::new(),
        };
        self.waiters = waiters;
        assert(self@.waiters =~= old(self)@.waiters.remove(key@));
        assert(self@ =~= (LedgerView {
            states: old(self)@.states,
            waiters: old(self)@.waiters.remove(key@),
        }));
        r
    }

    /// Adds `waiter` at the end of `key`'s waiters.
    fn add_waiter(&mut self, key: &String, waiter: W)
        ensures
            final(self)@ == (LedgerView {
                states: old(self)@.states,
                waiters: old(self)@.waiters.insert(key@, old(self)@.waiting(key@).push(waiter)),
            }),
    {
        let mut list = self.take_waiters(key);
        let ghost mid = self@;
        list.push(waiter);
        assert(list@ == old(self)@.waiting(key@).push(waiter));
        proof {
            use_type_invariant(&*self);
        }
        let mut waiters = KeyMap::new();
        std::mem::swap(&mut waiters, &mut self.waiters);
        let ghost before = waiters@;
        assert(before.map_values(|v: Vec<W>| v@) =~= mid.waiters);
        waiters.insert(key.clone(), list);
        assert(waiters@ == before.insert(key@, list));
        self.waiters = waiters;
        assert(before.insert(key@, list).map_values(|v: Vec<W>| v@) =~= before.map_values(
            |v: Vec<W>| v@,
        ).insert(key@, list@));
        assert(mid.waiters == old(self)@.waiters.remove(key@));
        assert(old(self)@.waiters.remove(key@).insert(key@, list@) =~= old(self)@.waiters.insert(
            key@,
            list@,
        ));
        assert(self@.waiters =~= old(self)@.waiters.insert(
            key@,
            old(self)@.waiting(key@).push(waiter),
        ));
        assert(self@ =~= (LedgerView {
            states: old(self)@.states,
            waiters: old(self)@.waiters.insert(key@, old(self)@.waiting(key@).push(waiter)),
        }));
    }

    /// Answers a push of `key` by a caller who waits through `waiter` and
    /// holds `handle`: from cache if the key completed; by joining the
    /// queued or running job if there is one; otherwise by claiming the key
    /// for the caller's job. Checking and claiming happen in one step, so
    /// two pushes of one key cannot both claim it.
    pub fn claim<H>(&mut self, key: &String, waiter: W, handle: H) -> (r: Accepted<H>)
        ensures
            final(self)@ == old(self)@.claim(key@, waiter),
            r.admission() == old(self)@.decide(key@),
            r.admission() is Joined ==> r == Accepted::InFlight(handle),
            r.admission() is Claimed ==> r == Accepted::Queued(handle),
            match old(self)@.states.get(key@) {
                Some(StateView::Completed { output }) => r matches Accepted::Cached { output: o }
                    && o@ == output,
                Some(StateView::Pending) => r == Accepted::InFlight(handle),
                Some(StateView::Processing) => r == Accepted::InFlight(handle),
                _ => r == Accepted::Queued(handle) && final(self)@.states.get(key@) == Some(
                    StateView::Pending,
                ),
            },
    {
        proof {
            use_type_invariant(&*self);
        }
        let in_flight = match self.states.get(key) {
            Some(State::Completed { output }) => {
                return Accepted::Cached { output: output.clone() };
            },
            Some(State::Pending) => true,
            Some(State::Processing) => true,
            _ => false,
        };
        if in_flight {
            self.add_waiter(key, waiter);
            assert(self@ =~= old(self)@.claim(key@, waiter));
            Accepted::InFlight(handle)
        } else {
            self.record(key, State::Pending);
            self.add_waiter(key, waiter);
            assert(self@ =~= old(self)@.claim(key@, waiter));
            Accepted::Queued(handle)
        }
    }

    /// Settles a claim once its job was offered to the lane: if the lane
    /// took it (`sent` is `Ok`) nothing changes; if the lane refused it, the
    /// key records the failure with the refusal's text, its waiters are
    /// dropped, which tells each of them the job was lost, and the push
    /// fails.
    pub fn settle_send(&mut self, key: &String, sent: Result<(), String>) -> (r: Result<
        (),
        PushError,
    >)
        requires
            sent is Err ==> old(self)@.states.get(key@) == Some(StateView::Pending),
        ensures
            match sent {
                Ok(_) => r is Ok && final(self)@ == old(self)@,
                Err(reason) => r == Err::<(), PushError>(PushError::LaneClosed) && final(self)@
                    == old(self)@.fail_send(key@, reason@),
            },
    {
        match sent {
            Ok(()) => Ok(()),
            Err(reason) => {
                let ghost reason_view = reason@;
                self.record(key, State::Failed { reason });
                let _ = self.take_waiters(key);
                assert(self@ =~= old(self)@.fail_send(key@, reason_view));
                Err(PushError::LaneClosed)
            },
        }
    }

    /// Records that a worker started `key`'s job, which is pending.
    pub fn begin(&mut self, key: &String)
        requires
            old(self)@.states.get(key@) == Some(StateView::Pending),
        ensures
            final(self)@ == old(self)@.begin(key@),
    {
        self.record(key, State::Processing);
    }

    /// Records how `key`'s running job ended, with the outcome its work
    /// reported or, where the work panicked, none; and hands back the
    /// callers waiting on it, in the order they came, to be told.
    pub fn finish(&mut self, key: &String, reported: &Option<Outcome>) -> (r: Vec<W>)
        requires
            old(self)@.states.get(key@) == Some(StateView::Processing),
        ensures
            final(self)@ == old(self)@.finish(key@, Outcome::view_of(*reported)),
            r@ == old(self)@.waiting(key@),
    {
        let ended = match reported {
            Some(outcome) => State::from(outcome),
            None => State::Panicked,
        };
        self.record(key, ended);
        let r = self.take_waiters(key);
        assert(self@ =~= old(self)@.finish(key@, Outcome::view_of(*reported)));
        r
    }

    /// Forgets a pending claim of `key` whose job never reached the lane;
    /// its waiters are dropped, which tells each of them the job was lost.
    pub fn release(&mut self, key: &String)
        requires
            old(self)@.states.get(key@) == Some(StateView::Pending),
        ensures
            final(self)@ == old(self)@.release(key@),
    {
        proof {
            use_type_invariant(&*self);
        }
        let mut states = KeyMap::new();
        std::mem::swap(&mut states, &mut self.states);
        let _ = states.remove(key);
        self.states = states;
        let _ = self.take_waiters(key);
        assert(self@.states =~= old(self)@.states.remove(key@));
        assert(self@ =~= old(self)@.release(key@));
    }

    /// The state recorded for `key`, if the table has seen it.
    pub fn state(&self, key: &str) -> (r: Option<State>)
        ensures
            match r {
                Some(s) => self@.states.get(key@) == Some(s@),
                None => self@.states.get(key@) is None,
            },
    {
        proof {
            use_type_invariant(self);
        }
        let key = String::from_str(key);
        match self.states.get(&key) {
            Some(s) => Some(s.clone()),
            None => None,
        }
    }
}

} // verus!
