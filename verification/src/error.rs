use vstd::prelude::*;

use crate::outcome::Outcome;

verus! {

/// A push that could not hand its job to the lane.
#[derive(Debug, Clone, Copy, PartialEq, Eq, Structural)]
pub enum PushError {
    LaneClosed,
}

/// A waiting caller whose job ended without its outcome being reported.
#[derive(Debug, Clone, Copy, PartialEq, Eq, Structural)]
pub struct JobLost;

/// Why a caller that pushed a job and waited for it got no output.
#[derive(Debug, PartialEq, Eq)]
pub enum WaitError {
    Push(PushError),
    Lost(JobLost),
    Failed { reason: String },
}

impl PushError {
    /// The text that describes this error.
    pub open spec fn message_view(self) -> Seq<char> {
        match self {
            PushError::LaneClosed => "lane is closed; no worker is running"@,
        }
    }

    /// The text that describes this error.
    pub fn message(&self) -> (m: String)
        ensures
            m@ == self.message_view(),
    {
        match self {
            PushError::LaneClosed => String::from_str("lane is closed; no worker is running"),
        }
    }
}

impl JobLost {
    /// The text that describes this error.
    pub open spec fn message_view(self) -> Seq<char> {
        "job outcome was lost; the worker ended without reporting"@
    }

    /// The text that describes this error.
    pub fn message(&self) -> (m: String)
        ensures
            m@ == self.message_view(),
    {
        String::from_str("job outcome was lost; the worker ended without reporting")
    }
}

impl WaitError {
    /// The text that describes this error: what went wrong, then the
    /// underlying error's own text or the job's reason.
    pub open spec fn message_view(self) -> Seq<char> {
        match self {
            WaitError::Push(e) => "could not queue the job: "@ + e.message_view(),
            WaitError::Lost(e) => e.message_view(),
            WaitError::Failed { reason } => "the job failed: "@ + reason@,
        }
    }

    /// The text that describes this error.
    pub fn message(&self) -> (m: String)
        ensures
            m@ == self.message_view(),
    {
        match self {
            WaitError::Push(e) => {
                let inner = e.message();
                String::from_str("could not queue the job: ").concat(inner.as_str())
            },
            WaitError::Lost(e) => e.message(),
            WaitError::Failed { reason } => String::from_str("the job failed: ").concat(
                reason.as_str(),
            ),
        }
    }
}

impl From<PushError> for WaitError {
    fn from(err: PushError) -> (w: WaitError) {
        WaitError::Push(err)
    }
}

impl vstd::std_specs::convert::FromSpecImpl<PushError> for WaitError {
    open spec fn obeys_from_spec() -> bool {
        true
    }

    open spec fn from_spec(v: PushError) -> WaitError {
        WaitError::Push(v)
    }
}

impl From<JobLost> for WaitError {
    fn from(err: JobLost) -> (w: WaitError) {
        WaitError::Lost(err)
    }
}

impl vstd::std_specs::convert::FromSpecImpl<JobLost> for WaitError {
    open spec fn obeys_from_spec() -> bool {
        true
    }

    open spec fn from_spec(v: JobLost) -> WaitError {
        WaitError::Lost(v)
    }
}

/// What a caller waiting on a job gets once the job's outcome arrives, or
/// once it is known that none will: the job's output, the job's failure,
/// or the loss of the job.
pub fn wait_output(result: Result<Outcome, JobLost>) -> (r: Result<String, WaitError>)
    ensures
        match result {
            Ok(Outcome::Completed { output }) => r == Ok::<String, WaitError>(output),
            Ok(Outcome::Failed { reason }) => r == Err::<String, WaitError>(
                WaitError::Failed { reason },
            ),
            Err(lost) => r == Err::<String, WaitError>(WaitError::Lost(lost)),
        },
{
    match result {
        Ok(Outcome::Completed { output }) => Ok(output),
        Ok(Outcome::Failed { reason }) => Err(WaitError::Failed { reason }),
        Err(lost) => Err(WaitError::from(lost)),
    }
}

} // verus!
