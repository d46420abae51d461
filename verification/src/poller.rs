//! Bounded readiness polling.
//!
//! Before any destructive operation the device is polled with a
//! non-destructive readiness probe.  The rule of the loop: the probe result
//! is examined *before* the clock, so a zero-length timeout still gets one
//! attempt; a probe failure times the wait out only once the elapsed time has
//! reached the configured timeout, and otherwise the driver sleeps one poll
//! interval and probes again.  Time is counted in whole poll intervals.

use vstd::prelude::*;

verus! {

/// Default timeout, in poll intervals (seconds), for waiting on a device.
pub const DEFAULT_TIMEOUT: u64 = 10;

/// Outcome of a completed wait.
#[derive(Debug, Clone, Copy, PartialEq, Eq, Structural)]
pub enum PollResult {
    /// A probe succeeded after `elapsed` whole poll intervals.
    Ready {
        /// Poll intervals slept before the successful probe.
        elapsed: u64,
    },
    /// No probe succeeded within the timeout.
    TimedOut {
        /// Poll intervals slept before giving up.
        elapsed: u64,
    },
}

/// The decision taken after one readiness probe.
#[derive(Debug, Clone, Copy, PartialEq, Eq, Structural)]
pub enum PollVerdict {
    /// The device answered: stop waiting, report success.
    Ready,
    /// The device did not answer and the timeout has been reached.
    TimedOut,
    /// The device did not answer; sleep one interval and probe again.
    SleepThenRetry,
}

/// The decision after a probe taken `elapsed` intervals into a wait bounded
/// by `timeout`.  The probe is consulted first: a successful probe wins even
/// when the timeout is already reached.
pub open spec fn poll_verdict(elapsed: u64, timeout: u64, probe_ok: bool) -> PollVerdict {
    if probe_ok {
        PollVerdict::Ready
    } else if elapsed >= timeout {
        PollVerdict::TimedOut
    } else {
        PollVerdict::SleepThenRetry
    }
}

/// Decide what to do after one readiness probe.
pub fn poll_decide(elapsed: u64, timeout: u64, probe_ok: bool) -> (r: PollVerdict)
    ensures
        r == poll_verdict(elapsed, timeout, probe_ok),
{
    if probe_ok {
        PollVerdict::Ready
    } else if elapsed >= timeout {
        PollVerdict::TimedOut
    } else {
        PollVerdict::SleepThenRetry
    }
}

/// Model of a whole wait that began `elapsed` intervals ago: `probes[k]` is
/// the outcome the device would give to the probe taken after `k` further
/// sleeps.  If the recorded probes run out the wait is scored as timed out
/// where it stands; supplying at least `timeout - elapsed + 1` probes rules
/// that case out.
pub open spec fn poll_model(elapsed: u64, timeout: u64, probes: Seq<bool>) -> PollResult
    decreases probes.len(),
{
    if probes.len() == 0 {
        PollResult::TimedOut { elapsed }
    } else if probes[0] {
        PollResult::Ready { elapsed }
    } else if elapsed >= timeout {
        PollResult::TimedOut { elapsed }
    } else {
        poll_model((elapsed + 1) as u64, timeout, probes.drop_first())
    }
}

/// Wait for the device to become ready, with the probe outcomes supplied as
/// a recorded series: `probes[k]` answers the probe taken after `k` sleeps.
pub fn wait_for_ready(timeout: u64, probes: &Vec<bool>) -> (r: PollResult)
    requires
        probes@.len() >= timeout + 1,
    ensures
        r == poll_model(0, timeout, probes@),
{
    let mut elapsed: u64 = 0;
    let mut k: usize = 0;
    let n = probes.len();
    proof {
        assert(probes@.skip(0) =~= probes@);
    }
    loop
        invariant
            0 <= elapsed <= timeout,
            k == elapsed,
            n == probes@.len(),
            probes@.len() >= timeout + 1,
            poll_model(0, timeout, probes@)
                == poll_model(elapsed, timeout, probes@.skip(elapsed as int)),
        decreases timeout - elapsed,
    {
        let ghost rest = probes@.skip(elapsed as int);
        proof {
            assert(rest.len() > 0);
            assert(rest[0] == probes@[elapsed as int]);
        }
        if probes[k] {
            return PollResult::Ready { elapsed };
        }
        if elapsed >= timeout {
            return PollResult::TimedOut { elapsed };
        }
        proof {
            assert(rest.drop_first() =~= probes@.skip(elapsed + 1));
        }
        elapsed = elapsed + 1;
        k = k + 1;
    }
}

/// For every timeout, zero included, the first probe is examined before the
/// clock: a wait whose very first probe succeeds reports ready with no time
/// spent, whatever the timeout.
pub proof fn lemma_first_probe_counts(timeout: u64, probes: Seq<bool>)
    requires
        probes.len() > 0,
        probes[0],
    ensures
        poll_model(0, timeout, probes) == (PollResult::Ready { elapsed: 0u64 }),
{
}

/// A timeout verdict is never early: given enough recorded probes, a wait
/// that reports a timeout has slept at least `timeout` intervals.
pub proof fn lemma_timeout_not_early(elapsed: u64, timeout: u64, probes: Seq<bool>)
    requires
        probes.len() + elapsed >= timeout + 1,
    ensures
        poll_model(elapsed, timeout, probes) matches PollResult::TimedOut { elapsed: e }
            ==> e >= timeout,
    decreases probes.len(),
{
    if probes.len() > 0 && !probes[0] && elapsed < timeout {
        lemma_timeout_not_early((elapsed + 1) as u64, timeout, probes.drop_first());
    }
}

/// If the device never becomes ready, the wait ends in a timeout verdict,
/// reached exactly when the elapsed time has caught up with the timeout.
pub proof fn lemma_never_ready_times_out(elapsed: u64, timeout: u64, probes: Seq<bool>)
    requires
        probes.len() + elapsed >= timeout + 1,
        elapsed <= timeout,
        forall|i: int| 0 <= i < probes.len() ==> !probes[i],
    ensures
        poll_model(elapsed, timeout, probes) == (PollResult::TimedOut { elapsed: timeout }),
    decreases probes.len(),
{
    assert(!probes[0]);
    if elapsed < timeout {
        assert(forall|i: int| 0 <= i < probes.drop_first().len()
            ==> !#[trigger] probes.drop_first()[i]);
        lemma_never_ready_times_out((elapsed + 1) as u64, timeout, probes.drop_first());
    }
}

} // verus!
