//! Subcommand plans and their runner.
//!
//! Each ripping subcommand is a fixed sequence of phases: one or more dump
//! strategies, a best-effort completion sound, and an interactive
//! installation-key capture.  The plan decides which strategies run and in
//! what order; the plan runner sequences them with the partial-failure
//! policy of the pipeline: a later phase starts only after every earlier
//! phase was dealt with, the first failure of a fatal phase ends the plan
//! with its cause chain unchanged, and only the completion sound is
//! best-effort — its failure is ignored.

use vstd::prelude::*;

use crate::cause::{copy_chain, Cause};
use crate::strategy::{rip_audio, rip_bin, rip_iso, AudioState, BinStrategy, IsoStrategy};

verus! {

/// One phase of a subcommand's plan.
#[derive(Debug, Clone, Copy, PartialEq, Eq, Structural)]
pub enum Phase {
    /// Run the raw-sector dump strategy.
    Bin {
        /// Whether the table-of-contents file is kept afterwards.
        keep_tocfile: bool,
    },
    /// Run the two-pass image recovery strategy.
    Iso,
    /// Run the audio extraction strategy.
    Audio,
    /// Play the completion sound; failure is ignored.
    DoneSound,
    /// Capture the installation key interactively.
    CdKey,
}

/// The phase sequence of the CD-ROM subcommand: a raw-sector dump keeping
/// the table-of-contents file, the completion sound, then the key capture.
pub open spec fn cd_plan() -> Seq<Phase> {
    seq![(Phase::Bin { keep_tocfile: true }), Phase::DoneSound, Phase::CdKey]
}

/// The phase sequence of the damaged-disc subcommand: every strategy in
/// turn, then the completion sound and the key capture.
pub open spec fn damaged_plan() -> Seq<Phase> {
    seq![
        (Phase::Bin { keep_tocfile: true }),
        Phase::Iso,
        Phase::Audio,
        Phase::DoneSound,
        Phase::CdKey,
    ]
}

/// The phase sequence of the DVD-ROM subcommand: the image recovery
/// strategy, the completion sound, then the key capture.
pub open spec fn dvd_plan() -> Seq<Phase> {
    seq![Phase::Iso, Phase::DoneSound, Phase::CdKey]
}

/// The phase sequence of the PlayStation subcommand: a raw-sector dump only.
pub open spec fn psx_plan() -> Seq<Phase> {
    seq![(Phase::Bin { keep_tocfile: true })]
}

/// The phase sequence of the PlayStation 2 subcommand: an image recovery
/// only.
pub open spec fn ps2_plan() -> Seq<Phase> {
    seq![Phase::Iso]
}

/// The phase sequence of the audio subcommand: the audio extraction
/// strategy only.
pub open spec fn audio_plan() -> Seq<Phase> {
    seq![Phase::Audio]
}

/// The plan of the CD-ROM subcommand.
pub fn rip_cd() -> (r: Vec<Phase>)
    ensures
        r@ == cd_plan(),
{
    let mut r: Vec<Phase> = Vec::new();
    r.push(Phase::Bin { keep_tocfile: true });
    r.push(Phase::DoneSound);
    r.push(Phase::CdKey);
    proof {
        assert(r@ =~= cd_plan());
    }
    r
}

/// The plan of the damaged-disc subcommand.
pub fn rip_damaged() -> (r: Vec<Phase>)
    ensures
        r@ == damaged_plan(),
{
    let mut r: Vec<Phase> = Vec::new();
    r.push(Phase::Bin { keep_tocfile: true });
    r.push(Phase::Iso);
    r.push(Phase::Audio);
    r.push(Phase::DoneSound);
    r.push(Phase::CdKey);
    proof {
        assert(r@ =~= damaged_plan());
    }
    r
}

/// The plan of the DVD-ROM subcommand.
pub fn rip_dvd() -> (r: Vec<Phase>)
    ensures
        r@ == dvd_plan(),
{
    let mut r: Vec<Phase> = Vec::new();
    r.push(Phase::Iso);
    r.push(Phase::DoneSound);
    r.push(Phase::CdKey);
    proof {
        assert(r@ =~= dvd_plan());
    }
    r
}

/// The plan of the PlayStation subcommand.
pub fn rip_psx() -> (r: Vec<Phase>)
    ensures
        r@ == psx_plan(),
{
    let mut r: Vec<Phase> = Vec::new();
    r.push(Phase::Bin { keep_tocfile: true });
    proof {
        assert(r@ =~= psx_plan());
    }
    r
}

/// The plan of the PlayStation 2 subcommand.
pub fn rip_ps2() -> (r: Vec<Phase>)
    ensures
        r@ == ps2_plan(),
{
    let mut r: Vec<Phase> = Vec::new();
    r.push(Phase::Iso);
    proof {
        assert(r@ =~= ps2_plan());
    }
    r
}

/// The plan of the audio subcommand.
pub fn rip_audio_plan() -> (r: Vec<Phase>)
    ensures
        r@ == audio_plan(),
{
    let mut r: Vec<Phase> = Vec::new();
    r.push(Phase::Audio);
    proof {
        assert(r@ =~= audio_plan());
    }
    r
}

/// The media categories a run can be asked to back up.
#[derive(Debug, Clone, Copy, PartialEq, Eq, Structural)]
pub enum Command {
    /// Rip an audio CD.
    Audio,
    /// Rip a PC CD-ROM.
    CD,
    /// Rip a PC DVD-ROM.
    DVD,
    /// Rip a Sony PlayStation disc.
    PSX,
    /// Rip a Sony PlayStation 2 disc.
    PS2,
    /// Rip a cartridge connected through a dumping adapter.
    Retrode,
    /// Rip a UMD through a USB-connected handheld.
    UMD,
    /// Validate and process an externally dumped disc image.
    Cleanrip {
        /// Only run the hash validation, without processing further.
        just_validate: bool,
    },
    /// Recover a damaged CD.
    Damaged,
}

/// The plan of a subcommand, or nothing for the categories that have no
/// implemented plan yet.
pub fn subcommand_phases(cmd: &Command) -> (r: Option<Vec<Phase>>)
    ensures
        match cmd {
            Command::Audio => (r matches Some(p) && p@ == audio_plan()),
            Command::CD => (r matches Some(p) && p@ == cd_plan()),
            Command::DVD => (r matches Some(p) && p@ == dvd_plan()),
            Command::PSX => (r matches Some(p) && p@ == psx_plan()),
            Command::PS2 => (r matches Some(p) && p@ == ps2_plan()),
            Command::Damaged => (r matches Some(p) && p@ == damaged_plan()),
            Command::Retrode => r is None,
            Command::UMD => r is None,
            Command::Cleanrip { .. } => r is None,
        },
{
    match cmd {
        Command::Audio => Some(rip_audio_plan()),
        Command::CD => Some(rip_cd()),
        Command::DVD => Some(rip_dvd()),
        Command::PSX => Some(rip_psx()),
        Command::PS2 => Some(rip_ps2()),
        Command::Damaged => Some(rip_damaged()),
        Command::Retrode => None,
        Command::UMD => None,
        Command::Cleanrip { .. } => None,
    }
}

/// A freshly started strategy machine for one dump phase, or nothing for the
/// phases that are not dump strategies.
#[derive(Debug)]
pub enum PhaseMachine {
    /// The raw-sector dump machine.
    Bin(BinStrategy),
    /// The image recovery machine.
    Iso(IsoStrategy),
    /// The audio extraction machine.
    Audio(AudioState),
}

/// Start the strategy machine of a dump phase for a resolved disc name.
pub fn start_phase(phase: &Phase, disc_name: &Vec<u8>) -> (r: Option<PhaseMachine>)
    ensures
        match phase {
            Phase::Bin { keep_tocfile } => (r matches Some(m) && m matches PhaseMachine::Bin(b)
                && b.base@ == crate::strategy::base_name(disc_name@)
                && b.keep_tocfile == keep_tocfile
                && b.state@ is Dump),
            Phase::Iso => (r matches Some(m) && m matches PhaseMachine::Iso(s)
                && s.base@ == crate::strategy::base_name(disc_name@)
                && s.state@ is FirstPass),
            Phase::Audio => (r matches Some(m) && m matches PhaseMachine::Audio(a)
                && a@ is Extract),
            Phase::DoneSound => r is None,
            Phase::CdKey => r is None,
        },
{
    match phase {
        Phase::Bin { keep_tocfile } => Some(PhaseMachine::Bin(rip_bin(disc_name, *keep_tocfile))),
        Phase::Iso => Some(PhaseMachine::Iso(rip_iso(disc_name))),
        Phase::Audio => Some(PhaseMachine::Audio(rip_audio())),
        Phase::DoneSound => None,
        Phase::CdKey => None,
    }
}

// --- the plan runner ---

/// What the driver observed after dealing with one phase.
#[derive(Debug, PartialEq, Eq)]
pub enum PhaseOutcome {
    /// The phase ran to completion.
    Completed,
    /// The phase failed with this cause chain.
    Failed(Vec<Cause>),
}

/// Progress of one plan.
#[derive(Debug, PartialEq, Eq)]
pub enum PlanState {
    /// The phase at `next` is pending; everything before it completed.
    Running {
        /// The whole plan, in order.
        phases: Vec<Phase>,
        /// Index of the pending phase.
        next: usize,
    },
    /// Every phase of the plan completed.
    Done {
        /// The whole plan, in order.
        phases: Vec<Phase>,
    },
    /// A fatal phase failed with this cause chain; no later phase starts.
    Failed {
        /// The failing phase's cause chain, unchanged.
        chain: Vec<Cause>,
    },
}

/// Mathematical model of a `PlanState`.
pub enum PlanModel {
    /// Model of `PlanState::Running`.
    Running {
        /// The whole plan, in order.
        phases: Seq<Phase>,
        /// Index of the pending phase.
        next: usize,
    },
    /// Model of `PlanState::Done`.
    Done {
        /// The whole plan, in order.
        phases: Seq<Phase>,
    },
    /// Model of `PlanState::Failed`.
    Failed {
        /// The failing phase's cause chain, unchanged.
        chain: Seq<Cause>,
    },
}

impl View for PlanState {
    type V = PlanModel;

    open spec fn view(&self) -> PlanModel {
        match self {
            PlanState::Running { phases, next } => PlanModel::Running {
                phases: phases@,
                next: *next,
            },
            PlanState::Done { phases } => PlanModel::Done { phases: phases@ },
            PlanState::Failed { chain } => PlanModel::Failed { chain: chain@ },
        }
    }
}

/// The starting state of a plan: the first phase pending, or `Done` at once
/// for an empty plan.
pub open spec fn plan_start_of(phases: Seq<Phase>) -> PlanModel {
    if phases.len() == 0 {
        PlanModel::Done { phases }
    } else {
        PlanModel::Running { phases, next: 0 }
    }
}

/// The phase pending in a plan state, if any: a finished plan — completed
/// or failed — asks for nothing further.
pub open spec fn plan_pending_of(m: PlanModel) -> Option<Phase> {
    match m {
        PlanModel::Running { phases, next } => if next < phases.len() {
            Some(phases[next as int])
        } else {
            None
        },
        PlanModel::Done { .. } => None,
        PlanModel::Failed { .. } => None,
    }
}

/// One transition of the plan runner.  A completed phase hands control to
/// the next one; a failed fatal phase ends the plan with its cause chain
/// unchanged; a failure of the best-effort completion sound is ignored.
pub open spec fn plan_step(m: PlanModel, ev: PhaseOutcome) -> PlanModel {
    match m {
        PlanModel::Running { phases, next } => {
            if next >= phases.len() {
                m
            } else {
                match ev {
                    PhaseOutcome::Failed(chain) => if phases[next as int] != Phase::DoneSound {
                        PlanModel::Failed { chain: chain@ }
                    } else if next + 1 < phases.len() {
                        PlanModel::Running { phases, next: (next + 1) as usize }
                    } else {
                        PlanModel::Done { phases }
                    },
                    PhaseOutcome::Completed => if next + 1 < phases.len() {
                        PlanModel::Running { phases, next: (next + 1) as usize }
                    } else {
                        PlanModel::Done { phases }
                    },
                }
            }
        },
        PlanModel::Done { .. } => m,
        PlanModel::Failed { .. } => m,
    }
}

/// A whole plan run: fold the outcomes into the runner while a phase is
/// pending, collecting the phases that were actually started, in order.
pub open spec fn plan_run(m: PlanModel, evs: Seq<PhaseOutcome>) -> (PlanModel, Seq<Phase>)
    decreases evs.len(),
{
    if evs.len() == 0 || plan_pending_of(m) is None {
        (m, Seq::<Phase>::empty())
    } else {
        let ph = match plan_pending_of(m) {
            Some(p) => p,
            None => Phase::DoneSound,
        };
        let rest = plan_run(plan_step(m, evs[0]), evs.drop_first());
        (rest.0, seq![ph] + rest.1)
    }
}

/// Begin a plan run.
pub fn start_plan(phases: Vec<Phase>) -> (r: PlanState)
    ensures
        r@ == plan_start_of(phases@),
{
    if phases.len() == 0 {
        PlanState::Done { phases }
    } else {
        PlanState::Running { phases, next: 0 }
    }
}

/// The phase the driver should perform next, if any.
pub fn plan_pending(state: &PlanState) -> (r: Option<Phase>)
    ensures
        r == plan_pending_of(state@),
{
    match state {
        PlanState::Running { phases, next } => if *next < phases.len() {
            Some(phases[*next])
        } else {
            None
        },
        PlanState::Done { .. } => None,
        PlanState::Failed { .. } => None,
    }
}

/// Apply one phase outcome to the plan runner.
pub fn plan_advance(state: PlanState, ev: &PhaseOutcome) -> (r: PlanState)
    ensures
        r@ == plan_step(state@, *ev),
{
    match state {
        PlanState::Running { phases, next } => {
            if next >= phases.len() {
                PlanState::Running { phases, next }
            } else {
                match ev {
                    PhaseOutcome::Failed(chain) => {
                        if !(phases[next] == Phase::DoneSound) {
                            PlanState::Failed { chain: copy_chain(chain) }
                        } else if next + 1 < phases.len() {
                            PlanState::Running { phases, next: next + 1 }
                        } else {
                            PlanState::Done { phases }
                        }
                    },
                    PhaseOutcome::Completed => {
                        if next + 1 < phases.len() {
                            PlanState::Running { phases, next: next + 1 }
                        } else {
                            PlanState::Done { phases }
                        }
                    },
                }
            }
        },
        PlanState::Done { phases } => PlanState::Done { phases },
        PlanState::Failed { chain } => PlanState::Failed { chain },
    }
}

/// Folding one more outcome onto a plan run performs one more pending
/// phase, and changes nothing once the plan has ended.
pub proof fn lemma_plan_run_snoc(m: PlanModel, evs: Seq<PhaseOutcome>, ev: PhaseOutcome)
    ensures
        plan_pending_of(plan_run(m, evs).0) is None
            ==> plan_run(m, evs.push(ev)) == plan_run(m, evs),
        plan_pending_of(plan_run(m, evs).0) matches Some(ph) ==> {
            &&& plan_run(m, evs.push(ev)).0 == plan_step(plan_run(m, evs).0, ev)
            &&& plan_run(m, evs.push(ev)).1 == plan_run(m, evs).1.push(ph)
        },
    decreases evs.len(),
{
    if plan_pending_of(m) is None {
        assert(plan_run(m, evs) == (m, Seq::<Phase>::empty()));
        assert(plan_run(m, evs.push(ev)) == (m, Seq::<Phase>::empty()));
    } else if evs.len() == 0 {
        let ph = match plan_pending_of(m) {
            Some(p) => p,
            None => Phase::DoneSound,
        };
        assert(evs.push(ev)[0] == ev);
        assert(evs.push(ev).drop_first() =~= Seq::<PhaseOutcome>::empty());
        assert(plan_run(plan_step(m, ev), evs.push(ev).drop_first())
            == (plan_step(m, ev), Seq::<Phase>::empty()));
        assert(plan_run(m, evs.push(ev)).0 == plan_step(m, ev));
        assert(plan_run(m, evs.push(ev)).1 =~= Seq::<Phase>::empty().push(ph));
        assert(plan_run(m, evs) == (m, Seq::<Phase>::empty()));
    } else {
        let ph0 = match plan_pending_of(m) {
            Some(p) => p,
            None => Phase::DoneSound,
        };
        assert(evs.push(ev)[0] == evs[0]);
        assert(evs.push(ev).drop_first() =~= evs.drop_first().push(ev));
        let m1 = plan_step(m, evs[0]);
        lemma_plan_run_snoc(m1, evs.drop_first(), ev);
        let r = plan_run(m1, evs.drop_first());
        let r2 = plan_run(m1, evs.drop_first().push(ev));
        assert(plan_run(m, evs.push(ev)).0 == r2.0);
        assert(plan_run(m, evs.push(ev)).1 == seq![ph0] + r2.1);
        assert(plan_run(m, evs).0 == r.0);
        assert(plan_run(m, evs).1 == seq![ph0] + r.1);
        if plan_pending_of(r.0) is None {
            assert(r2 == r);
        } else {
            let ph = match plan_pending_of(r.0) {
                Some(p) => p,
                None => Phase::DoneSound,
            };
            assert(r2.1 == r.1.push(ph));
            assert(seq![ph0] + r.1.push(ph) =~= (seq![ph0] + r.1).push(ph));
        }
    }
}

/// Run a plan over a recorded series of phase outcomes, returning the final
/// state and the phases that were started, in order.
pub fn run_plan(start: PlanState, events: &Vec<PhaseOutcome>) -> (r: (PlanState, Vec<Phase>))
    ensures
        r.0@ == plan_run(start@, events@).0,
        r.1@ == plan_run(start@, events@).1,
{
    let ghost m0 = start@;
    let mut state = start;
    let mut trace: Vec<Phase> = Vec::new();
    let n = events.len();
    let mut i: usize = 0;
    proof {
        assert(events@.subrange(0, 0) =~= Seq::<PhaseOutcome>::empty());
    }
    while i < n
        invariant
            0 <= i <= n,
            n == events@.len(),
            state@ == plan_run(m0, events@.subrange(0, i as int)).0,
            trace@ == plan_run(m0, events@.subrange(0, i as int)).1,
        decreases n - i,
    {
        proof {
            assert(events@.subrange(0, i + 1 as int)
                =~= events@.subrange(0, i as int).push(events@[i as int]));
            lemma_plan_run_snoc(m0, events@.subrange(0, i as int), events@[i as int]);
        }
        match plan_pending(&state) {
            Some(p) => {
                trace.push(p);
                state = plan_advance(state, &events[i]);
            },
            None => {},
        }
        i += 1;
    }
    proof {
        assert(events@.subrange(0, n as int) =~= events@);
    }
    (state, trace)
}

/// The phases a plan starts form an in-order, gap-free slice of the plan:
/// a later phase is started only after every earlier one was dealt with.
pub proof fn lemma_plan_runs_in_order(phases: Seq<Phase>, next: usize, evs: Seq<PhaseOutcome>)
    requires
        next <= phases.len() <= usize::MAX,
    ensures
        ({
            let tr = plan_run((PlanModel::Running { phases, next }), evs).1;
            &&& next + tr.len() <= phases.len()
            &&& tr == phases.subrange(next as int, next + tr.len())
        }),
    decreases evs.len(),
{
    let m = PlanModel::Running { phases, next };
    if evs.len() == 0 || plan_pending_of(m) is None {
        assert(plan_run(m, evs).1 =~= phases.subrange(next as int, next as int));
    } else {
        let m1 = plan_step(m, evs[0]);
        let rest = plan_run(m1, evs.drop_first());
        assert(plan_run(m, evs).1 == seq![phases[next as int]] + rest.1);
        match m1 {
            PlanModel::Running { next: next1, .. } => {
                assert(next1 == next + 1);
                lemma_plan_runs_in_order(phases, next1, evs.drop_first());
                assert(seq![phases[next as int]] + rest.1
                    =~= phases.subrange(next as int, next + 1 + rest.1.len()));
            },
            PlanModel::Done { .. } => {
                assert(plan_pending_of(m1) is None);
                assert(rest == (m1, Seq::<Phase>::empty()));
                assert(seq![phases[next as int]] + rest.1
                    =~= phases.subrange(next as int, next + 1));
            },
            PlanModel::Failed { .. } => {
                assert(plan_pending_of(m1) is None);
                assert(rest == (m1, Seq::<Phase>::empty()));
                assert(seq![phases[next as int]] + rest.1
                    =~= phases.subrange(next as int, next + 1));
            },
        }
    }
}

/// A failed fatal phase ends the plan at once: the failure's cause chain
/// comes out unchanged, and no later phase — the completion sound and the
/// key capture included — is ever started.
pub proof fn lemma_plan_stops_at_failure(
    phases: Seq<Phase>,
    next: usize,
    chain: Vec<Cause>,
    evs: Seq<PhaseOutcome>,
)
    requires
        next < phases.len() <= usize::MAX,
        phases[next as int] != Phase::DoneSound,
        evs.len() >= 1,
        evs[0] == PhaseOutcome::Failed(chain),
    ensures
        plan_run((PlanModel::Running { phases, next }), evs).0
            == (PlanModel::Failed { chain: chain@ }),
        plan_run((PlanModel::Running { phases, next }), evs).1 == seq![phases[next as int]],
{
    let m = PlanModel::Running { phases, next };
    let m1 = plan_step(m, evs[0]);
    assert(m1 == PlanModel::Failed { chain: chain@ });
    assert(plan_pending_of(m1) is None);
    assert(plan_run(m1, evs.drop_first()) == (m1, Seq::<Phase>::empty()));
    assert(plan_run(m, evs).1 =~= seq![phases[next as int]]);
}

/// A run of nothing but completed phases finishes the whole plan: every
/// remaining phase is started exactly once, in order.
pub proof fn lemma_plan_all_completed(phases: Seq<Phase>, next: usize, evs: Seq<PhaseOutcome>)
    requires
        next < phases.len() <= usize::MAX,
        evs.len() == phases.len() - next,
        forall|i: int| 0 <= i < evs.len() ==> evs[i] == PhaseOutcome::Completed,
    ensures
        plan_run((PlanModel::Running { phases, next }), evs).0 == (PlanModel::Done { phases }),
        plan_run((PlanModel::Running { phases, next }), evs).1
            == phases.subrange(next as int, phases.len() as int),
    decreases phases.len() - next,
{
    let m = PlanModel::Running { phases, next };
    let m1 = plan_step(m, evs[0]);
    let rest = plan_run(m1, evs.drop_first());
    assert(plan_run(m, evs).1 == seq![phases[next as int]] + rest.1);
    if next + 1 < phases.len() {
        assert(m1 == PlanModel::Running { phases, next: (next + 1) as usize });
        assert(forall|i: int| 0 <= i < evs.drop_first().len()
            ==> #[trigger] evs.drop_first()[i] == PhaseOutcome::Completed);
        lemma_plan_all_completed(phases, (next + 1) as usize, evs.drop_first());
        assert(seq![phases[next as int]] + rest.1
            =~= phases.subrange(next as int, phases.len() as int));
    } else {
        assert(m1 == PlanModel::Done { phases });
        assert(plan_pending_of(m1) is None);
        assert(rest == (m1, Seq::<Phase>::empty()));
        assert(seq![phases[next as int]] + rest.1
            =~= phases.subrange(next as int, phases.len() as int));
    }
}

/// Completed phases up to `k`, then a fatal failure at `k`: the plan starts
/// exactly the phases through `k`, in order, and ends with the failure's
/// cause chain unchanged — nothing after the failing phase is started.
pub proof fn lemma_plan_first_failure_after_successes(
    phases: Seq<Phase>,
    k: usize,
    chain: Vec<Cause>,
    evs: Seq<PhaseOutcome>,
)
    requires
        k < phases.len() <= usize::MAX,
        phases[k as int] != Phase::DoneSound,
        evs.len() >= k + 1,
        forall|i: int| 0 <= i < k ==> evs[i] == PhaseOutcome::Completed,
        evs[k as int] == PhaseOutcome::Failed(chain),
    ensures
        plan_run((PlanModel::Running { phases, next: 0 }), evs).0
            == (PlanModel::Failed { chain: chain@ }),
        plan_run((PlanModel::Running { phases, next: 0 }), evs).1
            == phases.subrange(0, k + 1),
{
    lemma_plan_failure_from(phases, 0, k, chain, evs);
    assert(phases.subrange(0, k + 1) =~= phases.subrange(0, k + 1));
}

/// Auxiliary induction for `lemma_plan_first_failure_after_successes`,
/// generalised over the starting phase.
proof fn lemma_plan_failure_from(
    phases: Seq<Phase>,
    next: usize,
    k: usize,
    chain: Vec<Cause>,
    evs: Seq<PhaseOutcome>,
)
    requires
        next <= k < phases.len() <= usize::MAX,
        phases[k as int] != Phase::DoneSound,
        evs.len() >= k - next + 1,
        forall|i: int| 0 <= i < k - next ==> evs[i] == PhaseOutcome::Completed,
        evs[k - next] == PhaseOutcome::Failed(chain),
    ensures
        plan_run((PlanModel::Running { phases, next }), evs).0
            == (PlanModel::Failed { chain: chain@ }),
        plan_run((PlanModel::Running { phases, next }), evs).1
            == phases.subrange(next as int, k + 1),
    decreases k - next,
{
    if next == k {
        lemma_plan_stops_at_failure(phases, next, chain, evs);
        assert(seq![phases[next as int]] =~= phases.subrange(next as int, k + 1));
    } else {
        let m = PlanModel::Running { phases, next };
        assert(evs[0] == PhaseOutcome::Completed);
        let m1 = plan_step(m, evs[0]);
        assert(next + 1 < phases.len());
        assert(m1 == PlanModel::Running { phases, next: (next + 1) as usize });
        let rest = plan_run(m1, evs.drop_first());
        assert(plan_run(m, evs).1 == seq![phases[next as int]] + rest.1);
        assert(forall|i: int| 0 <= i < k - (next + 1)
            ==> #[trigger] evs.drop_first()[i] == PhaseOutcome::Completed);
        assert(evs.drop_first()[k - (next + 1)] == evs[k - next]);
        lemma_plan_failure_from(phases, (next + 1) as usize, k, chain, evs.drop_first());
        assert(seq![phases[next as int]] + rest.1 =~= phases.subrange(next as int, k + 1));
    }
}

/// The CD subcommand's pipeline: a failed raw-sector dump ends the run with
/// that failure's cause chain unchanged, and neither the completion sound
/// nor the key capture is ever started.
pub proof fn lemma_cd_plan_stops_at_dump_failure(chain: Vec<Cause>, evs: Seq<PhaseOutcome>)
    requires
        evs.len() >= 1,
        evs[0] == PhaseOutcome::Failed(chain),
    ensures
        plan_run(plan_start_of(cd_plan()), evs).0 == (PlanModel::Failed { chain: chain@ }),
        plan_run(plan_start_of(cd_plan()), evs).1 == seq![(Phase::Bin { keep_tocfile: true })],
{
    assert(plan_start_of(cd_plan()) == (PlanModel::Running { phases: cd_plan(), next: 0usize }));
    lemma_plan_stops_at_failure(cd_plan(), 0, chain, evs);
}

/// The damaged-disc pipeline runs its three strategies strictly in order,
/// each started only after the previous one completed, with the completion
/// sound and the key capture after all of them.
pub proof fn lemma_damaged_plan_runs_all_in_order(evs: Seq<PhaseOutcome>)
    requires
        evs.len() == damaged_plan().len(),
        forall|i: int| 0 <= i < evs.len() ==> evs[i] == PhaseOutcome::Completed,
    ensures
        plan_run(plan_start_of(damaged_plan()), evs).0
            == (PlanModel::Done { phases: damaged_plan() }),
        plan_run(plan_start_of(damaged_plan()), evs).1 == damaged_plan(),
{
    assert(plan_start_of(damaged_plan())
        == (PlanModel::Running { phases: damaged_plan(), next: 0usize }));
    lemma_plan_all_completed(damaged_plan(), 0, evs);
    assert(damaged_plan().subrange(0, damaged_plan().len() as int) =~= damaged_plan());
}

/// The damaged-disc pipeline stops at its first strategy failure: the
/// failing strategy's cause chain propagates unchanged, and no later
/// strategy — nor the completion sound, nor the key capture — is started.
pub proof fn lemma_damaged_plan_stops_at_first_failure(
    k: usize,
    chain: Vec<Cause>,
    evs: Seq<PhaseOutcome>,
)
    requires
        k < 3,
        evs.len() >= k + 1,
        forall|i: int| 0 <= i < k ==> evs[i] == PhaseOutcome::Completed,
        evs[k as int] == PhaseOutcome::Failed(chain),
    ensures
        plan_run(plan_start_of(damaged_plan()), evs).0
            == (PlanModel::Failed { chain: chain@ }),
        plan_run(plan_start_of(damaged_plan()), evs).1 == damaged_plan().subrange(0, k + 1),
{
    assert(plan_start_of(damaged_plan())
        == (PlanModel::Running { phases: damaged_plan(), next: 0usize }));
    assert(damaged_plan()[k as int] != Phase::DoneSound);
    lemma_plan_first_failure_after_successes(damaged_plan(), k, chain, evs);
}

} // verus!
