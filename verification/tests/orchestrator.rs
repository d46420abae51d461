use rip_media::cause::Cause;
use rip_media::orchestrator::{rip, RipAction, RipConfig, RipEvent, RipState};
use rip_media::poller::PollResult;

fn cfg() -> RipConfig {
    RipConfig { timeout: 10, pause: 2 }
}

#[test]
fn run_aborts_on_timeout_before_any_dump_or_sound() {
    // Device not ready within a zero-second timeout: the run aborts with a
    // timeout-derived cause chain, no dump strategy is started, and no sound
    // is played (the failure sound comes only after a dump failure).
    let zero = RipConfig { timeout: 0, pause: 2 };
    let events = vec![
        RipEvent::Prompted(true),
        RipEvent::Loaded(true),
        RipEvent::Ready(PollResult::TimedOut { elapsed: 0 }),
    ];
    let (trace, state) = rip(&zero, &events);
    assert_eq!(state, RipState::Failed(vec![Cause::Timeout, Cause::WaitingForReady]));
    assert_eq!(
        trace,
        vec![
            RipAction::PromptInsert,
            RipAction::Load,
            RipAction::WaitForReady { timeout: 0 },
        ]
    );
    assert!(!trace.contains(&RipAction::PlayFailSound));
    assert!(!trace.contains(&RipAction::PlayDoneSound));
    assert!(!trace.contains(&RipAction::RunStrategy));
}

#[test]
fn run_completes_and_ejects_best_effort() {
    let events = vec![
        RipEvent::Prompted(true),
        RipEvent::Loaded(true),
        RipEvent::Ready(PollResult::Ready { elapsed: 1 }),
        RipEvent::Unmounted(true),
        RipEvent::Resolved(b"CDROM".to_vec()),
        RipEvent::StrategyDone(Ok(())),
        RipEvent::SoundPlayed(true),
        RipEvent::Paused,
        // The final eject fails, which does not revert the completed run.
        RipEvent::Ejected(false),
    ];
    let (trace, state) = rip(&cfg(), &events);
    assert_eq!(state, RipState::Done);
    assert_eq!(
        trace,
        vec![
            RipAction::PromptInsert,
            RipAction::Load,
            RipAction::WaitForReady { timeout: 10 },
            RipAction::Unmount,
            RipAction::ResolveName,
            RipAction::RunStrategy,
            RipAction::PlayDoneSound,
            RipAction::Pause { intervals: 2 },
            RipAction::Eject,
        ]
    );
}

#[test]
fn run_plays_fail_sound_and_propagates_dump_failure_unchanged() {
    let chain = vec![Cause::ToolFailed, Cause::FirstRecoveryPass];
    let events = vec![
        RipEvent::Prompted(true),
        RipEvent::Loaded(true),
        RipEvent::Ready(PollResult::Ready { elapsed: 0 }),
        RipEvent::Unmounted(true),
        RipEvent::Resolved(b"DISC".to_vec()),
        RipEvent::StrategyDone(Err(chain.clone())),
        // The failure sound itself fails; the original error still comes out.
        RipEvent::SoundPlayed(false),
    ];
    let (trace, state) = rip(&cfg(), &events);
    assert_eq!(state, RipState::Failed(chain));
    assert_eq!(trace.last(), Some(&RipAction::PlayFailSound));
    assert!(!trace.contains(&RipAction::PlayDoneSound));
}

#[test]
fn run_unmount_failure_is_fatal_before_any_dump() {
    let events = vec![
        RipEvent::Prompted(true),
        RipEvent::Loaded(true),
        RipEvent::Ready(PollResult::Ready { elapsed: 0 }),
        RipEvent::Unmounted(false),
    ];
    let (trace, state) = rip(&cfg(), &events);
    assert_eq!(state, RipState::Failed(vec![Cause::ToolFailed, Cause::UnmountingMedia]));
    assert!(!trace.contains(&RipAction::RunStrategy));
    assert!(!trace.contains(&RipAction::PlayFailSound));
}

#[test]
fn run_load_failure_is_fatal() {
    let events = vec![RipEvent::Prompted(true), RipEvent::Loaded(false)];
    let (_, state) = rip(&cfg(), &events);
    assert_eq!(state, RipState::Failed(vec![Cause::ToolFailed, Cause::LoadingMedia]));
}

#[test]
fn run_prompt_failure_is_fatal() {
    let events = vec![RipEvent::Prompted(false)];
    let (_, state) = rip(&cfg(), &events);
    assert_eq!(
        state,
        RipState::Failed(vec![Cause::InputClosed, Cause::AwaitingInsertion])
    );
}
