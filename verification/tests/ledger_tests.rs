use agentq::{Accepted, Ledger, Outcome, State};
use std::rc::Rc;

fn key(s: &str) -> String {
    s.to_string()
}

#[test]
fn first_push_of_a_key_is_queued_and_pending() {
    let mut ledger: Ledger<u32> = Ledger::new();
    assert_eq!(ledger.state("k"), None);
    let r = ledger.claim(&key("k"), 1, "handle-1");
    assert!(matches!(r, Accepted::Queued("handle-1")));
    assert_eq!(ledger.state("k"), Some(State::Pending));
}

#[test]
fn second_push_of_a_queued_key_joins_it() {
    let mut ledger: Ledger<u32> = Ledger::new();
    assert!(matches!(ledger.claim(&key("dup-key"), 1, 'a'), Accepted::Queued('a')));
    assert!(matches!(ledger.claim(&key("dup-key"), 2, 'b'), Accepted::InFlight('b')));
    assert_eq!(ledger.state("dup-key"), Some(State::Pending));
}

#[test]
fn push_of_a_running_key_joins_it() {
    let mut ledger: Ledger<u32> = Ledger::new();
    ledger.claim(&key("k"), 1, ());
    ledger.begin(&key("k"));
    assert_eq!(ledger.state("k"), Some(State::Processing));
    assert!(matches!(ledger.claim(&key("k"), 2, ()), Accepted::InFlight(())));
    assert_eq!(ledger.state("k"), Some(State::Processing));
}

#[test]
fn finish_hands_back_every_waiter_in_order() {
    let mut ledger: Ledger<u32> = Ledger::new();
    ledger.claim(&key("shared-key"), 10, ());
    ledger.claim(&key("shared-key"), 20, ());
    ledger.begin(&key("shared-key"));
    ledger.claim(&key("shared-key"), 30, ());
    let outcome = Some(Outcome::Completed { output: "shared answer".to_string() });
    let waiters = ledger.finish(&key("shared-key"), &outcome);
    assert_eq!(waiters, vec![10, 20, 30]);
    assert_eq!(
        ledger.state("shared-key"),
        Some(State::Completed { output: "shared answer".to_string() })
    );
}

#[test]
fn completed_key_is_answered_from_cache() {
    let mut ledger: Ledger<u32> = Ledger::new();
    ledger.claim(&key("cache-me"), 1, ());
    ledger.begin(&key("cache-me"));
    ledger.finish(&key("cache-me"), &Some(Outcome::Completed { output: "the answer".to_string() }));
    for w in 2..5 {
        match ledger.claim(&key("cache-me"), w, ()) {
            Accepted::Cached { output } => assert_eq!(output, "the answer"),
            other => panic!("expected cached output, got {other:?}"),
        }
    }
    assert_eq!(
        ledger.state("cache-me"),
        Some(State::Completed { output: "the answer".to_string() })
    );
}

#[test]
fn failed_key_can_be_pushed_again() {
    let mut ledger: Ledger<u32> = Ledger::new();
    ledger.claim(&key("will-fail"), 1, ());
    ledger.begin(&key("will-fail"));
    let outcome = Some(Outcome::from_result(Err("upstream returned 500".to_string())));
    ledger.finish(&key("will-fail"), &outcome);
    assert_eq!(
        ledger.state("will-fail"),
        Some(State::Failed { reason: "upstream returned 500".to_string() })
    );
    assert!(matches!(ledger.claim(&key("will-fail"), 2, ()), Accepted::Queued(())));
    assert_eq!(ledger.state("will-fail"), Some(State::Pending));
}

#[test]
fn panicked_job_leaves_its_key_retryable() {
    let mut ledger: Ledger<u32> = Ledger::new();
    ledger.claim(&key("retry-me"), 1, ());
    ledger.begin(&key("retry-me"));
    assert_eq!(ledger.finish(&key("retry-me"), &None), vec![1]);
    assert_eq!(ledger.state("retry-me"), Some(State::Panicked));
    assert_eq!(Outcome::settle(None), Outcome::Failed { reason: "job panicked".to_string() });
    assert!(matches!(ledger.claim(&key("retry-me"), 2, ()), Accepted::Queued(())));
}

#[test]
fn panic_is_recorded_apart_from_a_returned_error() {
    let mut ledger: Ledger<u32> = Ledger::new();
    for k in ["panics", "returns-err"] {
        ledger.claim(&key(k), 1, ());
        ledger.begin(&key(k));
    }
    ledger.finish(&key("panics"), &None);
    ledger.finish(
        &key("returns-err"),
        &Some(Outcome::from_result(Err("job panicked".to_string()))),
    );
    assert_eq!(ledger.state("panics"), Some(State::Panicked));
    assert_eq!(
        ledger.state("returns-err"),
        Some(State::Failed { reason: "job panicked".to_string() })
    );
    assert_ne!(ledger.state("panics"), ledger.state("returns-err"));
}

#[test]
fn released_claim_forgets_the_key_and_drops_its_waiters() {
    let mut ledger: Ledger<Rc<()>> = Ledger::new();
    let first = Rc::new(());
    let second = Rc::new(());
    ledger.claim(&key("abandoned"), first.clone(), ());
    assert!(matches!(ledger.claim(&key("abandoned"), second.clone(), ()), Accepted::InFlight(())));
    assert_eq!(Rc::strong_count(&second), 2);
    ledger.release(&key("abandoned"));
    assert_eq!(Rc::strong_count(&first), 1);
    assert_eq!(Rc::strong_count(&second), 1);
    assert_eq!(ledger.state("abandoned"), None);
    assert!(matches!(ledger.claim(&key("abandoned"), first.clone(), ()), Accepted::Queued(())));
}

#[test]
fn delivered_job_keeps_its_claim() {
    let mut ledger: Ledger<u32> = Ledger::new();
    ledger.claim(&key("not-cancelled"), 1, ());
    assert_eq!(ledger.settle_send(&key("not-cancelled"), Ok(())), Ok(()));
    assert_eq!(ledger.state("not-cancelled"), Some(State::Pending));
}

#[test]
fn refused_job_records_the_refusal() {
    let mut ledger: Ledger<u32> = Ledger::new();
    ledger.claim(&key("k"), 1, ());
    assert_eq!(
        ledger.settle_send(&key("k"), Err("channel closed".to_string())),
        Err(agentq::PushError::LaneClosed)
    );
    assert_eq!(ledger.state("k"), Some(State::Failed { reason: "channel closed".to_string() }));
    assert!(matches!(ledger.claim(&key("k"), 2, ()), Accepted::Queued(())));
}

#[test]
fn refused_job_lets_go_of_its_joined_callers() {
    let mut ledger: Ledger<Rc<()>> = Ledger::new();
    let claimer = Rc::new(());
    let joiner = Rc::new(());
    ledger.claim(&key("refused"), claimer.clone(), ());
    assert!(matches!(ledger.claim(&key("refused"), joiner.clone(), ()), Accepted::InFlight(())));
    assert_eq!(Rc::strong_count(&joiner), 2);
    let refused = ledger.settle_send(&key("refused"), Err("channel closed".to_string()));
    assert_eq!(refused, Err(agentq::PushError::LaneClosed));
    assert_eq!(Rc::strong_count(&claimer), 1);
    assert_eq!(Rc::strong_count(&joiner), 1);
}

#[test]
fn steps_on_one_key_leave_others_alone() {
    let mut ledger: Ledger<u32> = Ledger::new();
    ledger.claim(&key("a"), 1, ());
    ledger.claim(&key("b"), 2, ());
    ledger.claim(&key("c"), 3, ());
    ledger.begin(&key("a"));
    ledger.begin(&key("b"));
    assert_eq!(ledger.finish(&key("a"), &Some(Outcome::Completed { output: "done".to_string() })), vec![1]);
    assert_eq!(ledger.state("b"), Some(State::Processing));
    assert_eq!(ledger.state("c"), Some(State::Pending));
    ledger.release(&key("c"));
    assert_eq!(ledger.state("a"), Some(State::Completed { output: "done".to_string() }));
    assert_eq!(ledger.state("b"), Some(State::Processing));
    assert_eq!(ledger.state("c"), None);
    assert_eq!(ledger.finish(&key("b"), &None), vec![2]);
    assert_eq!(ledger.state("a"), Some(State::Completed { output: "done".to_string() }));
}

#[test]
fn keys_are_compared_by_their_text() {
    let mut ledger: Ledger<u32> = Ledger::new();
    ledger.claim(&key("job-1"), 1, ());
    assert!(matches!(ledger.claim(&key("job-10"), 2, ()), Accepted::Queued(())));
    assert!(matches!(ledger.claim(&key("job-1"), 3, ()), Accepted::InFlight(())));
    assert_eq!(ledger.state(""), None);
    assert!(matches!(ledger.claim(&key(""), 4, ()), Accepted::Queued(())));
}
