//! Top-level orchestration of one ripping run.
//!
//! A run moves through acquisition (prompt, tray load, readiness wait,
//! unmount), name resolution, exactly one dump plan, and finalisation
//! (completion sound, a short pause, eject).  Acquisition failures are fatal
//! and abort the run before anything is written; a dump failure plays the
//! failure sound once, best-effort, and propagates the strategy's cause
//! chain unchanged; the completion sound and the final eject are best-effort
//! and never revert a completed run.

use vstd::prelude::*;

use crate::bytes::is_blank;
use crate::cause::{chain2, copy_chain, Cause};
use crate::poller::PollResult;

verus! {

/// Configuration handed to the orchestrator at construction.
#[derive(Debug, Clone, Copy, PartialEq, Eq, Structural)]
pub struct RipConfig {
    /// Poll intervals to wait for the device to become ready.
    pub timeout: u64,
    /// Poll intervals to pause before the final eject, so the user can reach
    /// the drive door.
    pub pause: u64,
}

/// One action the orchestrator asks its driver to perform.
#[derive(Debug, Clone, Copy, PartialEq, Eq, Structural)]
pub enum RipAction {
    /// Prompt for media insertion and wait for acknowledgement.
    PromptInsert,
    /// Close the device tray.
    Load,
    /// Poll the device until ready, up to this timeout.
    WaitForReady {
        /// Poll intervals to wait.
        timeout: u64,
    },
    /// Release any filesystem mount, so the dump tools get exclusive access.
    Unmount,
    /// Resolve the disc name (see the label resolver).
    ResolveName,
    /// Run the selected dump plan with the resolved name.
    RunStrategy,
    /// Play the failure sound; the outcome is ignored.
    PlayFailSound,
    /// Play the completion sound; the outcome is ignored.
    PlayDoneSound,
    /// Pause before ejecting.
    Pause {
        /// Poll intervals to pause.
        intervals: u64,
    },
    /// Eject the medium; the outcome is ignored.
    Eject,
}

/// What the driver observed after performing an action.
#[derive(Debug)]
pub enum RipEvent {
    /// Whether the insertion prompt was acknowledged (reading it failed
    /// otherwise).
    Prompted(bool),
    /// Whether the tray load succeeded.
    Loaded(bool),
    /// The outcome of the readiness wait.
    Ready(PollResult),
    /// Whether the unmount succeeded.
    Unmounted(bool),
    /// The disc name the resolver settled on; never blank.
    Resolved(Vec<u8>),
    /// The outcome of the dump plan: success, or its cause chain.
    StrategyDone(Result<(), Vec<Cause>>),
    /// A sound finished playing (successfully or not).
    SoundPlayed(bool),
    /// The pause elapsed.
    Paused,
    /// The eject finished (successfully or not).
    Ejected(bool),
}

/// Progress of one run.
#[derive(Debug, PartialEq, Eq)]
pub enum RipState {
    /// Waiting for the user to insert the medium.
    AwaitInsertion,
    /// Closing the tray.
    Loading,
    /// Waiting for the device to become ready.
    AwaitingReady,
    /// Releasing the filesystem mount.
    Unmounting,
    /// Resolving the disc name.
    ResolvingName,
    /// The dump plan is running.
    Dumping,
    /// The dump failed; the failure sound is being played before the chain
    /// is reported.
    NotifyingFailure(Vec<Cause>),
    /// The dump succeeded; the completion sound is being played.
    NotifyingSuccess,
    /// Pausing before the eject.
    Pausing,
    /// Ejecting the medium.
    Ejecting,
    /// The run completed.
    Done,
    /// The run failed with this cause chain.
    Failed(Vec<Cause>),
}

/// Mathematical model of a `RipState`.
pub enum RipModel {
    /// Model of `RipState::AwaitInsertion`.
    AwaitInsertion,
    /// Model of `RipState::Loading`.
    Loading,
    /// Model of `RipState::AwaitingReady`.
    AwaitingReady,
    /// Model of `RipState::Unmounting`.
    Unmounting,
    /// Model of `RipState::ResolvingName`.
    ResolvingName,
    /// Model of `RipState::Dumping`.
    Dumping,
    /// Model of `RipState::NotifyingFailure`.
    NotifyingFailure(Seq<Cause>),
    /// Model of `RipState::NotifyingSuccess`.
    NotifyingSuccess,
    /// Model of `RipState::Pausing`.
    Pausing,
    /// Model of `RipState::Ejecting`.
    Ejecting,
    /// Model of `RipState::Done`.
    Done,
    /// Model of `RipState::Failed`.
    Failed(Seq<Cause>),
}

impl View for RipState {
    type V = RipModel;

    open spec fn view(&self) -> RipModel {
        match self {
            RipState::AwaitInsertion => RipModel::AwaitInsertion,
            RipState::Loading => RipModel::Loading,
            RipState::AwaitingReady => RipModel::AwaitingReady,
            RipState::Unmounting => RipModel::Unmounting,
            RipState::ResolvingName => RipModel::ResolvingName,
            RipState::Dumping => RipModel::Dumping,
            RipState::NotifyingFailure(c) => RipModel::NotifyingFailure(c@),
            RipState::NotifyingSuccess => RipModel::NotifyingSuccess,
            RipState::Pausing => RipModel::Pausing,
            RipState::Ejecting => RipModel::Ejecting,
            RipState::Done => RipModel::Done,
            RipState::Failed(c) => RipModel::Failed(c@),
        }
    }
}

/// One transition of the run.  Acquisition failures go straight to `Failed`
/// with a chain naming the step; a dump failure passes through the
/// failure-sound state and then propagates its chain unchanged; sound and
/// eject outcomes are ignored.  An event that does not answer the pending
/// action changes nothing.
pub open spec fn rip_step(m: RipModel, ev: RipEvent) -> RipModel {
    match m {
        RipModel::AwaitInsertion => match ev {
            RipEvent::Prompted(ok) => if ok {
                RipModel::Loading
            } else {
                RipModel::Failed(seq![Cause::InputClosed, Cause::AwaitingInsertion])
            },
            _ => m,
        },
        RipModel::Loading => match ev {
            RipEvent::Loaded(ok) => if ok {
                RipModel::AwaitingReady
            } else {
                RipModel::Failed(seq![Cause::ToolFailed, Cause::LoadingMedia])
            },
            _ => m,
        },
        RipModel::AwaitingReady => match ev {
            RipEvent::Ready(r) => if r is Ready {
                RipModel::Unmounting
            } else {
                RipModel::Failed(seq![Cause::Timeout, Cause::WaitingForReady])
            },
            _ => m,
        },
        RipModel::Unmounting => match ev {
            RipEvent::Unmounted(ok) => if ok {
                RipModel::ResolvingName
            } else {
                RipModel::Failed(seq![Cause::ToolFailed, Cause::UnmountingMedia])
            },
            _ => m,
        },
        RipModel::ResolvingName => match ev {
            RipEvent::Resolved(_) => RipModel::Dumping,
            _ => m,
        },
        RipModel::Dumping => match ev {
            RipEvent::StrategyDone(outcome) => match outcome {
                Ok(_) => RipModel::NotifyingSuccess,
                Err(chain) => RipModel::NotifyingFailure(chain@),
            },
            _ => m,
        },
        RipModel::NotifyingFailure(chain) => match ev {
            RipEvent::SoundPlayed(_) => RipModel::Failed(chain),
            _ => m,
        },
        RipModel::NotifyingSuccess => match ev {
            RipEvent::SoundPlayed(_) => RipModel::Pausing,
            _ => m,
        },
        RipModel::Pausing => match ev {
            RipEvent::Paused => RipModel::Ejecting,
            _ => m,
        },
        RipModel::Ejecting => match ev {
            RipEvent::Ejected(_) => RipModel::Done,
            _ => m,
        },
        RipModel::Done => m,
        RipModel::Failed(_) => m,
    }
}

/// The action pending in a run state.
pub open spec fn rip_action_of(m: RipModel, cfg: RipConfig) -> Option<RipAction> {
    match m {
        RipModel::AwaitInsertion => Some(RipAction::PromptInsert),
        RipModel::Loading => Some(RipAction::Load),
        RipModel::AwaitingReady => Some(RipAction::WaitForReady { timeout: cfg.timeout }),
        RipModel::Unmounting => Some(RipAction::Unmount),
        RipModel::ResolvingName => Some(RipAction::ResolveName),
        RipModel::Dumping => Some(RipAction::RunStrategy),
        RipModel::NotifyingFailure(_) => Some(RipAction::PlayFailSound),
        RipModel::NotifyingSuccess => Some(RipAction::PlayDoneSound),
        RipModel::Pausing => Some(RipAction::Pause { intervals: cfg.pause }),
        RipModel::Ejecting => Some(RipAction::Eject),
        RipModel::Done => None,
        RipModel::Failed(_) => None,
    }
}

/// The action the driver should perform next, if any.
pub fn rip_action(state: &RipState, cfg: &RipConfig) -> (r: Option<RipAction>)
    ensures
        r == rip_action_of(state@, *cfg),
{
    match state {
        RipState::AwaitInsertion => Some(RipAction::PromptInsert),
        RipState::Loading => Some(RipAction::Load),
        RipState::AwaitingReady => Some(RipAction::WaitForReady { timeout: cfg.timeout }),
        RipState::Unmounting => Some(RipAction::Unmount),
        RipState::ResolvingName => Some(RipAction::ResolveName),
        RipState::Dumping => Some(RipAction::RunStrategy),
        RipState::NotifyingFailure(_) => Some(RipAction::PlayFailSound),
        RipState::NotifyingSuccess => Some(RipAction::PlayDoneSound),
        RipState::Pausing => Some(RipAction::Pause { intervals: cfg.pause }),
        RipState::Ejecting => Some(RipAction::Eject),
        RipState::Done => None,
        RipState::Failed(_) => None,
    }
}

/// Apply one observation to the run.  A resolved name must honour the
/// resolver's invariant: it is never blank (a blank one would be a
/// programming error, not a recoverable condition).
pub fn rip_advance(state: RipState, ev: &RipEvent) -> (r: RipState)
    requires
        (*ev matches RipEvent::Resolved(n) ==> !is_blank(n@)),
    ensures
        r@ == rip_step(state@, *ev),
{
    match state {
        RipState::AwaitInsertion => match ev {
            RipEvent::Prompted(ok) => if *ok {
                RipState::Loading
            } else {
                RipState::Failed(chain2(Cause::InputClosed, Cause::AwaitingInsertion))
            },
            _ => RipState::AwaitInsertion,
        },
        RipState::Loading => match ev {
            RipEvent::Loaded(ok) => if *ok {
                RipState::AwaitingReady
            } else {
                RipState::Failed(chain2(Cause::ToolFailed, Cause::LoadingMedia))
            },
            _ => RipState::Loading,
        },
        RipState::AwaitingReady => match ev {
            RipEvent::Ready(r) => match r {
                PollResult::Ready { .. } => RipState::Unmounting,
                PollResult::TimedOut { .. } => RipState::Failed(
                    chain2(Cause::Timeout, Cause::WaitingForReady),
                ),
            },
            _ => RipState::AwaitingReady,
        },
        RipState::Unmounting => match ev {
            RipEvent::Unmounted(ok) => if *ok {
                RipState::ResolvingName
            } else {
                RipState::Failed(chain2(Cause::ToolFailed, Cause::UnmountingMedia))
            },
            _ => RipState::Unmounting,
        },
        RipState::ResolvingName => match ev {
            RipEvent::Resolved(_) => RipState::Dumping,
            _ => RipState::ResolvingName,
        },
        RipState::Dumping => match ev {
            RipEvent::StrategyDone(outcome) => match outcome {
                Ok(_) => RipState::NotifyingSuccess,
                Err(chain) => RipState::NotifyingFailure(copy_chain(chain)),
            },
            _ => RipState::Dumping,
        },
        RipState::NotifyingFailure(chain) => match ev {
            RipEvent::SoundPlayed(_) => RipState::Failed(chain),
            _ => RipState::NotifyingFailure(chain),
        },
        RipState::NotifyingSuccess => match ev {
            RipEvent::SoundPlayed(_) => RipState::Pausing,
            _ => RipState::NotifyingSuccess,
        },
        RipState::Pausing => match ev {
            RipEvent::Paused => RipState::Ejecting,
            _ => RipState::Pausing,
        },
        RipState::Ejecting => match ev {
            RipEvent::Ejected(_) => RipState::Done,
            _ => RipState::Ejecting,
        },
        RipState::Done => RipState::Done,
        RipState::Failed(c) => RipState::Failed(c),
    }
}

/// A whole run: fold events into the machine while an action is pending,
/// collecting the actions the machine asked for.
pub open spec fn rip_run(cfg: RipConfig, m: RipModel, evs: Seq<RipEvent>) -> (
    RipModel,
    Seq<RipAction>,
)
    decreases evs.len(),
{
    if evs.len() == 0 || rip_action_of(m, cfg) is None {
        (m, Seq::<RipAction>::empty())
    } else {
        let act = match rip_action_of(m, cfg) {
            Some(a) => a,
            None => RipAction::Eject,
        };
        let rest = rip_run(cfg, rip_step(m, evs[0]), evs.drop_first());
        (rest.0, seq![act] + rest.1)
    }
}

/// Folding one more event onto a run performs one more pending action, and
/// changes nothing once the run has ended.
pub proof fn lemma_rip_run_snoc(cfg: RipConfig, m: RipModel, evs: Seq<RipEvent>, ev: RipEvent)
    ensures
        rip_action_of(rip_run(cfg, m, evs).0, cfg) is None
            ==> rip_run(cfg, m, evs.push(ev)) == rip_run(cfg, m, evs),
        rip_action_of(rip_run(cfg, m, evs).0, cfg) matches Some(act) ==> {
            &&& rip_run(cfg, m, evs.push(ev)).0 == rip_step(rip_run(cfg, m, evs).0, ev)
            &&& rip_run(cfg, m, evs.push(ev)).1 == rip_run(cfg, m, evs).1.push(act)
        },
    decreases evs.len(),
{
    if rip_action_of(m, cfg) is None {
        assert(rip_run(cfg, m, evs) == (m, Seq::<RipAction>::empty()));
        assert(rip_run(cfg, m, evs.push(ev)) == (m, Seq::<RipAction>::empty()));
    } else if evs.len() == 0 {
        let act = match rip_action_of(m, cfg) {
            Some(a) => a,
            None => RipAction::Eject,
        };
        assert(evs.push(ev)[0] == ev);
        assert(evs.push(ev).drop_first() =~= Seq::<RipEvent>::empty());
        assert(rip_run(cfg, rip_step(m, ev), evs.push(ev).drop_first())
            == (rip_step(m, ev), Seq::<RipAction>::empty()));
        assert(rip_run(cfg, m, evs.push(ev)).0 == rip_step(m, ev));
        assert(rip_run(cfg, m, evs.push(ev)).1 =~= Seq::<RipAction>::empty().push(act));
        assert(rip_run(cfg, m, evs) == (m, Seq::<RipAction>::empty()));
    } else {
        let act0 = match rip_action_of(m, cfg) {
            Some(a) => a,
            None => RipAction::Eject,
        };
        assert(evs.push(ev)[0] == evs[0]);
        assert(evs.push(ev).drop_first() =~= evs.drop_first().push(ev));
        let m1 = rip_step(m, evs[0]);
        lemma_rip_run_snoc(cfg, m1, evs.drop_first(), ev);
        let r = rip_run(cfg, m1, evs.drop_first());
        let r2 = rip_run(cfg, m1, evs.drop_first().push(ev));
        assert(rip_run(cfg, m, evs.push(ev)).0 == r2.0);
        assert(rip_run(cfg, m, evs.push(ev)).1 == seq![act0] + r2.1);
        assert(rip_run(cfg, m, evs).0 == r.0);
        assert(rip_run(cfg, m, evs).1 == seq![act0] + r.1);
        if rip_action_of(r.0, cfg) is None {
            assert(r2 == r);
        } else {
            let act = match rip_action_of(r.0, cfg) {
                Some(a) => a,
                None => RipAction::Eject,
            };
            assert(r2.1 == r.1.push(act));
            assert(seq![act0] + r.1.push(act) =~= (seq![act0] + r.1).push(act));
        }
    }
}

/// Run the orchestrator over a recorded series of observations, returning
/// the actions it asked for, in order, and the final state.
pub fn rip(cfg: &RipConfig, events: &Vec<RipEvent>) -> (r: (Vec<RipAction>, RipState))
    requires
        forall|i: int| 0 <= i < events@.len()
            ==> ((#[trigger] events@[i]) matches RipEvent::Resolved(n) ==> !is_blank(n@)),
    ensures
        r.0@ == rip_run(*cfg, RipModel::AwaitInsertion, events@).1,
        r.1@ == rip_run(*cfg, RipModel::AwaitInsertion, events@).0,
{
    let ghost m0 = RipModel::AwaitInsertion;
    let mut state = RipState::AwaitInsertion;
    let mut trace: Vec<RipAction> = Vec::new();
    let n = events.len();
    let mut i: usize = 0;
    proof {
        assert(events@.subrange(0, 0) =~= Seq::<RipEvent>::empty());
    }
    while i < n
        invariant
            0 <= i <= n,
            n == events@.len(),
            forall|j: int| 0 <= j < events@.len()
                ==> ((#[trigger] events@[j]) matches RipEvent::Resolved(name)
                    ==> !is_blank(name@)),
            state@ == rip_run(*cfg, m0, events@.subrange(0, i as int)).0,
            trace@ == rip_run(*cfg, m0, events@.subrange(0, i as int)).1,
        decreases n - i,
    {
        proof {
            assert(events@.subrange(0, i + 1 as int)
                =~= events@.subrange(0, i as int).push(events@[i as int]));
            lemma_rip_run_snoc(*cfg, m0, events@.subrange(0, i as int), events@[i as int]);
        }
        match rip_action(&state, cfg) {
            Some(_) => {
                proof {
                    assert(events@[i as int] matches RipEvent::Resolved(name)
                        ==> !is_blank(name@));
                }
                trace.push(rip_action(&state, cfg).unwrap());
                state = rip_advance(state, &events[i]);
            },
            None => {},
        }
        i += 1;
    }
    proof {
        assert(events@.subrange(0, n as int) =~= events@);
    }
    (trace, state)
}

/// The failure sound is requested only while a dump failure is being
/// reported, and that state is reachable in one step only from the dump
/// itself: an acquisition failure can never ring it.
pub proof fn lemma_fail_sound_only_after_dump(cfg: RipConfig, m: RipModel, ev: RipEvent)
    ensures
        rip_action_of(m, cfg) == Some(RipAction::PlayFailSound) ==> m is NotifyingFailure,
        rip_step(m, ev) is NotifyingFailure ==> (m is NotifyingFailure || (m is Dumping
            && (ev matches RipEvent::StrategyDone(outcome) && outcome is Err))),
{
}

/// A run that times out during acquisition aborts at once: after the
/// insertion prompt and the tray load, a timed-out readiness wait ends the
/// run with a timeout-rooted cause chain.  The actions stop at the wait: no
/// dump is started, and no sound — in particular not the failure sound,
/// which plays only after a dump failure — is requested.
pub proof fn lemma_timeout_aborts_before_dump(cfg: RipConfig, evs: Seq<RipEvent>, e: u64)
    requires
        evs.len() == 3,
        evs[0] == RipEvent::Prompted(true),
        evs[1] == RipEvent::Loaded(true),
        evs[2] == RipEvent::Ready(PollResult::TimedOut { elapsed: e }),
    ensures
        rip_run(cfg, RipModel::AwaitInsertion, evs).0
            == RipModel::Failed(seq![Cause::Timeout, Cause::WaitingForReady]),
        rip_run(cfg, RipModel::AwaitInsertion, evs).1 == seq![
            RipAction::PromptInsert,
            RipAction::Load,
            (RipAction::WaitForReady { timeout: cfg.timeout }),
        ],
{
    let m0 = RipModel::AwaitInsertion;
    let m1 = rip_step(m0, evs[0]);
    assert(m1 == RipModel::Loading);
    let evs1 = evs.drop_first();
    assert(evs1[0] == evs[1]);
    let m2 = rip_step(m1, evs1[0]);
    assert(m2 == RipModel::AwaitingReady);
    let evs2 = evs1.drop_first();
    assert(evs2[0] == evs[2]);
    let m3 = rip_step(m2, evs2[0]);
    assert(m3 == RipModel::Failed(seq![Cause::Timeout, Cause::WaitingForReady]));
    let evs3 = evs2.drop_first();
    assert(evs3.len() == 0);
    assert(rip_run(cfg, m3, evs3) == (m3, Seq::<RipAction>::empty()));
    assert(rip_run(cfg, m2, evs2).1
        == seq![(RipAction::WaitForReady { timeout: cfg.timeout })] + rip_run(cfg, m3, evs3).1);
    assert(rip_run(cfg, m1, evs1).1 == seq![RipAction::Load] + rip_run(cfg, m2, evs2).1);
    assert(rip_run(cfg, m0, evs).1 == seq![RipAction::PromptInsert] + rip_run(cfg, m1, evs1).1);
    assert(rip_run(cfg, m0, evs).1 =~= seq![
        RipAction::PromptInsert,
        RipAction::Load,
        (RipAction::WaitForReady { timeout: cfg.timeout }),
    ]);
}

} // verus!
