use agentq::{wait_output, JobLost, Outcome, PushError, State, WaitError};

#[test]
fn error_messages() {
    assert_eq!(PushError::LaneClosed.message(), "lane is closed; no worker is running");
    assert_eq!(JobLost.message(), "job outcome was lost; the worker ended without reporting");
    assert_eq!(
        WaitError::Push(PushError::LaneClosed).message(),
        "could not queue the job: lane is closed; no worker is running"
    );
    assert_eq!(
        WaitError::Lost(JobLost).message(),
        "job outcome was lost; the worker ended without reporting"
    );
    assert_eq!(
        WaitError::Failed { reason: "upstream exploded".to_string() }.message(),
        "the job failed: upstream exploded"
    );
}

#[test]
fn wait_errors_wrap_their_cause() {
    assert_eq!(WaitError::from(PushError::LaneClosed), WaitError::Push(PushError::LaneClosed));
    assert_eq!(WaitError::from(JobLost), WaitError::Lost(JobLost));
}

#[test]
fn waiting_gives_the_output_or_the_failure() {
    assert_eq!(
        wait_output(Ok(Outcome::Completed { output: "the answer".to_string() })),
        Ok("the answer".to_string())
    );
    assert_eq!(
        wait_output(Ok(Outcome::Failed { reason: "upstream exploded".to_string() })),
        Err(WaitError::Failed { reason: "upstream exploded".to_string() })
    );
    assert_eq!(wait_output(Err(JobLost)), Err(WaitError::Lost(JobLost)));
}

#[test]
fn job_result_becomes_its_outcome() {
    assert_eq!(
        Outcome::from_result(Ok("fast".to_string())),
        Outcome::Completed { output: "fast".to_string() }
    );
    assert_eq!(
        Outcome::from_result(Err("upstream exploded".to_string())),
        Outcome::Failed { reason: "upstream exploded".to_string() }
    );
    let reported = Outcome::Completed { output: "ran anyway".to_string() };
    assert_eq!(Outcome::settle(Some(reported.clone())), reported);
    assert_eq!(Outcome::settle(None), Outcome::Failed { reason: "job panicked".to_string() });
}

#[test]
fn outcome_becomes_the_recorded_state() {
    let done = Outcome::Completed { output: "ran".to_string() };
    assert_eq!(State::from(&done), State::Completed { output: "ran".to_string() });
    let failed = Outcome::Failed { reason: "boom".to_string() };
    assert_eq!(State::from(&failed), State::Failed { reason: "boom".to_string() });
    assert_eq!(State::Pending.clone(), State::Pending);
    assert_eq!(failed.clone(), Outcome::Failed { reason: "boom".to_string() });
}
