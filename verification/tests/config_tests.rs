use agentq::{LaneConfig, Priority, QueueBuilder, DEFAULT_CAPACITY, DEFAULT_PERMITS, PRIORITY_COUNT};

#[test]
fn unconfigured_lane_has_the_default_budget() {
    let d = LaneConfig::default();
    assert_eq!(d, LaneConfig { capacity: 100, permits: 5 });
    assert_eq!((DEFAULT_CAPACITY, DEFAULT_PERMITS), (100, 5));
    let b = QueueBuilder::default();
    for p in [Priority::Low, Priority::Medium, Priority::High] {
        assert_eq!(b.lane_config(p), d);
    }
}

#[test]
fn configuring_a_lane_leaves_the_others() {
    let b = QueueBuilder::default()
        .lane(Priority::High, LaneConfig { capacity: 32, permits: 1 })
        .lane(Priority::Low, LaneConfig { capacity: 128, permits: 4 });
    assert_eq!(b.lane_config(Priority::High), LaneConfig { capacity: 32, permits: 1 });
    assert_eq!(b.lane_config(Priority::Low), LaneConfig { capacity: 128, permits: 4 });
    assert_eq!(b.lane_config(Priority::Medium), LaneConfig { capacity: 100, permits: 5 });
}

#[test]
fn configuring_a_lane_twice_keeps_the_last() {
    let b = QueueBuilder::default()
        .lane(Priority::Medium, LaneConfig { capacity: 1, permits: 1 })
        .lane(Priority::Medium, LaneConfig { capacity: 50, permits: 2 });
    assert_eq!(b.lane_config(Priority::Medium), LaneConfig { capacity: 50, permits: 2 });
}

#[test]
fn each_priority_has_its_own_lane() {
    assert_eq!(PRIORITY_COUNT, 3);
    assert_eq!(Priority::Low.index(), 0);
    assert_eq!(Priority::Medium.index(), 1);
    assert_eq!(Priority::High.index(), 2);
}
