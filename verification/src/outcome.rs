use vstd::prelude::*;

verus! {

/// How a job ended: with its output, or with the reason it failed.
#[derive(Debug, PartialEq, Eq)]
pub enum Outcome {
    Completed { output: String },
    Failed { reason: String },
}

/// The mathematical value of an [`Outcome`]: its text as a sequence of characters.
pub enum OutcomeView {
    Completed { output: Seq<char> },
    Failed { reason: Seq<char> },
}

impl View for Outcome {
    type V = OutcomeView;

    open spec fn view(&self) -> OutcomeView {
        match self {
            Outcome::Completed { output } => OutcomeView::Completed { output: output@ },
            Outcome::Failed { reason } => OutcomeView::Failed { reason: reason@ },
        }
    }
}

impl Clone for Outcome {
    fn clone(&self) -> (r: Self)
        ensures
            r == *self,
    {
        match self {
            Outcome::Completed { output } => Outcome::Completed { output: output.clone() },
            Outcome::Failed { reason } => Outcome::Failed { reason: reason.clone() },
        }
    }
}

impl Outcome {
    /// The value of an outcome that may not have been reported.
    pub open spec fn view_of(reported: Option<Outcome>) -> Option<OutcomeView> {
        match reported {
            Some(o) => Some(o@),
            None => None,
        }
    }

    /// The reason recorded for a job whose work panicked before reporting an outcome.
    pub open spec fn panicked_reason() -> Seq<char> {
        "job panicked"@
    }

    /// The outcome of a job whose work returned `result`: its output on
    /// success, the error's message as the reason on failure.
    pub fn from_result(result: Result<String, String>) -> (o: Outcome)
        ensures
            match result {
                Ok(output) => o == (Outcome::Completed { output }),
                Err(reason) => o == (Outcome::Failed { reason }),
            },
    {
        match result {
            Ok(output) => Outcome::Completed { output },
            Err(reason) => Outcome::Failed { reason },
        }
    }

    /// The outcome the callers waiting on a job are told: the one its work
    /// reported, or, where the work panicked and reported none, a failure
    /// whose reason says so. (The key itself records a panic as
    /// [`crate::State::Panicked`], apart from every reported failure.)
    pub fn settle(reported: Option<Outcome>) -> (o: Outcome)
        ensures
            match reported {
                Some(r) => o == r,
                None => o@ == (OutcomeView::Failed { reason: Outcome::panicked_reason() }),
            },
    {
        match reported {
            Some(r) => r,
            None => {
                let reason = String::from_str("job panicked");
                proof {
                    reveal_strlit("job panicked");
                }
                Outcome::Failed { reason }
            },
        }
    }
}

} // verus!
