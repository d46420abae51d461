use rip_media::poller::{poll_decide, wait_for_ready, PollResult, PollVerdict, DEFAULT_TIMEOUT};

#[test]
fn wait_for_ready_always_tries_at_least_once() {
    // A zero timeout still probes once: a device that is ready at the first
    // probe succeeds.
    let probes = vec![true];
    assert_eq!(wait_for_ready(0, &probes), PollResult::Ready { elapsed: 0 });
}

#[test]
fn wait_for_ready_returns_success_with_good_input() {
    let probes = vec![true, true, true];
    assert_eq!(wait_for_ready(2, &probes), PollResult::Ready { elapsed: 0 });
}

#[test]
fn wait_for_ready_actually_waits() {
    // A device that never answers holds the wait for the whole timeout.
    let timeout = 2;
    let probes = vec![false, false, false];
    match wait_for_ready(timeout, &probes) {
        PollResult::TimedOut { elapsed } => assert!(elapsed >= timeout),
        other => panic!("expected a timeout, got {:?}", other),
    }
}

#[test]
fn wait_for_ready_sees_late_readiness() {
    let mut probes = vec![false, false, true];
    probes.extend(std::iter::repeat(false).take(8));
    assert_eq!(
        wait_for_ready(DEFAULT_TIMEOUT, &probes),
        PollResult::Ready { elapsed: 2 }
    );
}

#[test]
fn wait_for_ready_zero_timeout_times_out_after_one_probe() {
    let probes = vec![false];
    assert_eq!(wait_for_ready(0, &probes), PollResult::TimedOut { elapsed: 0 });
}

#[test]
fn poll_decide_examines_probe_before_clock() {
    // A successful probe wins even when the timeout is already reached.
    assert_eq!(poll_decide(5, 5, true), PollVerdict::Ready);
    assert_eq!(poll_decide(9, 5, true), PollVerdict::Ready);
    assert_eq!(poll_decide(0, 0, true), PollVerdict::Ready);
}

#[test]
fn poll_decide_times_out_only_at_the_timeout() {
    assert_eq!(poll_decide(4, 5, false), PollVerdict::SleepThenRetry);
    assert_eq!(poll_decide(5, 5, false), PollVerdict::TimedOut);
    assert_eq!(poll_decide(0, 0, false), PollVerdict::TimedOut);
}
