use agentq::{Job, Priority};

#[test]
fn job_keeps_its_parts() {
    let job = Job::new("charge-order-4821".to_string(), Priority::High, 7u8);
    assert_eq!(job.key(), "charge-order-4821");
    assert_eq!(job.priority(), Priority::High);
    let (key, priority, func) = job.into_parts();
    assert_eq!(key, "charge-order-4821");
    assert_eq!(priority, Priority::High);
    assert_eq!(func, 7u8);
}

#[test]
fn job_work_is_called_once_by_its_taker() {
    let job = Job::new("key".to_string(), Priority::Low, || "job output".to_string());
    let (_, _, func) = job.into_parts();
    assert_eq!(func(), "job output");
}
