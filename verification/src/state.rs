use vstd::prelude::*;

use crate::outcome::{Outcome, OutcomeView};

verus! {

/// Where a key stands: waiting in its lane, running, or ended. A job ends by
/// returning its output (`Completed`), by returning an error (`Failed`), or
/// by panicking (`Panicked`), so an expected failure and a bug in the job's
/// work are told apart.
#[derive(Debug, PartialEq, Eq)]
pub enum State {
    Pending,
    Processing,
    Completed { output: String },
    Failed { reason: String },
    Panicked,
}

/// The mathematical value of a [`State`].
pub enum StateView {
    Pending,
    Processing,
    Completed { output: Seq<char> },
    Failed { reason: Seq<char> },
    Panicked,
}

impl View for State {
    type V = StateView;

    open spec fn view(&self) -> StateView {
        match self {
            State::Pending => StateView::Pending,
            State::Processing => StateView::Processing,
            State::Completed { output } => StateView::Completed { output: output@ },
            State::Failed { reason } => StateView::Failed { reason: reason@ },
            State::Panicked => StateView::Panicked,
        }
    }
}

impl StateView {
    /// A key in this state has a job queued or running for it.
    pub open spec fn in_flight(self) -> bool {
        self is Pending || self is Processing
    }

    /// The state a key records once its job ends: the outcome its work
    /// reported, or, where the work panicked and reported none, `Panicked`.
    pub open spec fn ended(reported: Option<OutcomeView>) -> StateView {
        match reported {
            Some(outcome) => outcome.recorded(),
            None => StateView::Panicked,
        }
    }
}

impl OutcomeView {
    /// The state recorded for a key whose job ended with this outcome.
    pub open spec fn recorded(self) -> StateView {
        match self {
            OutcomeView::Completed { output } => StateView::Completed { output },
            OutcomeView::Failed { reason } => StateView::Failed { reason },
        }
    }
}

impl Clone for State {
    fn clone(&self) -> (r: Self)
        ensures
            r == *self,
    {
        match self {
            State::Pending => State::Pending,
            State::Processing => State::Processing,
            State::Completed { output } => State::Completed { output: output.clone() },
            State::Failed { reason } => State::Failed { reason: reason.clone() },
            State::Panicked => State::Panicked,
        }
    }
}

impl<'a> From<&'a Outcome> for State {
    fn from(outcome: &'a Outcome) -> (s: State)
        ensures
            match outcome {
                Outcome::Completed { output } => s == (State::Completed { output: *output }),
                Outcome::Failed { reason } => s == (State::Failed { reason: *reason }),
            },
    {
        match outcome {
            Outcome::Completed { output } => State::Completed { output: output.clone() },
            Outcome::Failed { reason } => State::Failed { reason: reason.clone() },
        }
    }
}

impl<'a> vstd::std_specs::convert::FromSpecImpl<&'a Outcome> for State {
    open spec fn obeys_from_spec() -> bool {
        true
    }

    open spec fn from_spec(v: &'a Outcome) -> State {
        match *v {
            Outcome::Completed { output } => State::Completed { output },
            Outcome::Failed { reason } => State::Failed { reason },
        }
    }
}

} // verus!
