use map_bridge::high_level::MapInfo;
use map_bridge::poll::{PollDecision, PollSession};

#[test]
fn publish_on_change_only() {
    let mut session = PollSession::new(10);
    let mut info = MapInfo::default();
    info.u_net = 105;
    // a first snapshot differing from "never read" publishes
    assert_eq!(session.on_status(info), PollDecision::Publish);
    // an identical second read must not publish
    assert_eq!(session.on_status(info), PollDecision::Skip);
    // a differing third read publishes exactly once more
    let mut changed = info;
    changed.u_net = 106;
    assert_eq!(session.on_status(changed), PollDecision::Publish);
    assert_eq!(session.prev_map_info, changed);
    assert_eq!(session.consecutive_same_reads, 0);
}

#[test]
fn staleness_budget_from_interval() {
    assert_eq!(PollSession::new(1).max_consecutive_reads, 300);
    assert_eq!(PollSession::new(10).max_consecutive_reads, 30);
    assert_eq!(PollSession::new(600).max_consecutive_reads, 0);
}

#[test]
fn staleness_after_301_unchanged_polls() {
    let mut session = PollSession::new(1);
    let mut info = MapInfo::default();
    info.status_char = 1;
    assert_eq!(session.on_status(info), PollDecision::Publish);
    // 300 consecutive unchanged polls are tolerated
    for k in 1..=300u32 {
        assert_eq!(session.on_status(info), PollDecision::Skip, "poll {}", k);
    }
    // the 301st terminates the session
    assert_eq!(session.on_status(info), PollDecision::Stale);
}

#[test]
fn unchanged_default_snapshot_counts_as_same() {
    // before anything was read, an all-zero snapshot equals the
    // remembered one and does not publish
    let mut session = PollSession::new(1);
    assert_eq!(session.on_status(MapInfo::default()), PollDecision::Skip);
    assert_eq!(session.consecutive_same_reads, 1);
}
