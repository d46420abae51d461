use rip_media::cause::Cause;
use rip_media::device::DeviceHandle;
use rip_media::keyprompt::{get_cd_key, key_action, KeyAction, KeyEvent, KeyState};
use rip_media::plan::{
    plan_pending, rip_cd, rip_damaged, rip_dvd, rip_ps2, rip_psx, run_plan, start_phase,
    start_plan, subcommand_phases, Command, Phase, PhaseMachine, PhaseOutcome, PlanState,
};
use rip_media::strategy::{AudioState, BinState, IsoState};

#[test]
fn subcommand_plans_sequence_the_expected_strategies() {
    assert_eq!(
        rip_cd(),
        vec![Phase::Bin { keep_tocfile: true }, Phase::DoneSound, Phase::CdKey]
    );
    assert_eq!(
        rip_damaged(),
        vec![
            Phase::Bin { keep_tocfile: true },
            Phase::Iso,
            Phase::Audio,
            Phase::DoneSound,
            Phase::CdKey,
        ]
    );
    assert_eq!(rip_dvd(), vec![Phase::Iso, Phase::DoneSound, Phase::CdKey]);
    assert_eq!(rip_psx(), vec![Phase::Bin { keep_tocfile: true }]);
    assert_eq!(rip_ps2(), vec![Phase::Iso]);
}

#[test]
fn subcommand_phases_cover_the_implemented_categories() {
    assert_eq!(subcommand_phases(&Command::Audio), Some(vec![Phase::Audio]));
    assert_eq!(subcommand_phases(&Command::CD), Some(rip_cd()));
    assert_eq!(subcommand_phases(&Command::DVD), Some(rip_dvd()));
    assert_eq!(subcommand_phases(&Command::PSX), Some(rip_psx()));
    assert_eq!(subcommand_phases(&Command::PS2), Some(rip_ps2()));
    assert_eq!(subcommand_phases(&Command::Damaged), Some(rip_damaged()));
    assert_eq!(subcommand_phases(&Command::Retrode), None);
    assert_eq!(subcommand_phases(&Command::UMD), None);
    assert_eq!(
        subcommand_phases(&Command::Cleanrip { just_validate: true }),
        None
    );
}

#[test]
fn start_phase_builds_the_matching_strategy_machine() {
    let name = b"A Disc".to_vec();
    match start_phase(&Phase::Bin { keep_tocfile: false }, &name) {
        Some(PhaseMachine::Bin(s)) => {
            assert_eq!(s.base, b"A_Disc".to_vec());
            assert!(!s.keep_tocfile);
            assert_eq!(s.state, BinState::Dump);
        }
        other => panic!("expected a raw-sector machine, got {:?}", other),
    }
    match start_phase(&Phase::Iso, &name) {
        Some(PhaseMachine::Iso(s)) => {
            assert_eq!(s.base, b"A_Disc".to_vec());
            assert_eq!(s.state, IsoState::FirstPass);
        }
        other => panic!("expected a recovery machine, got {:?}", other),
    }
    match start_phase(&Phase::Audio, &name) {
        Some(PhaseMachine::Audio(s)) => assert_eq!(s, AudioState::Extract),
        other => panic!("expected an audio machine, got {:?}", other),
    }
    assert!(start_phase(&Phase::DoneSound, &name).is_none());
    assert!(start_phase(&Phase::CdKey, &name).is_none());
}

#[test]
fn cd_plan_failure_skips_sound_and_key_capture() {
    // The raw-sector dump fails: its cause chain comes out unchanged, and
    // neither the completion sound nor the key capture is ever started.
    let chain = vec![Cause::ToolFailed, Cause::DumpingBinToc];
    let events = vec![PhaseOutcome::Failed(chain.clone())];
    let (state, trace) = run_plan(start_plan(rip_cd()), &events);
    assert_eq!(state, PlanState::Failed { chain });
    assert_eq!(trace, vec![Phase::Bin { keep_tocfile: true }]);
    assert!(!trace.contains(&Phase::DoneSound));
    assert!(!trace.contains(&Phase::CdKey));
}

#[test]
fn damaged_plan_runs_every_phase_in_order_on_success() {
    let events = vec![
        PhaseOutcome::Completed,
        PhaseOutcome::Completed,
        PhaseOutcome::Completed,
        PhaseOutcome::Completed,
        PhaseOutcome::Completed,
    ];
    let (state, trace) = run_plan(start_plan(rip_damaged()), &events);
    assert_eq!(state, PlanState::Done { phases: rip_damaged() });
    assert_eq!(trace, rip_damaged());
}

#[test]
fn damaged_plan_stops_at_the_first_failed_strategy() {
    // The raw-sector dump succeeds, the image recovery fails: the audio
    // strategy, the sound and the key capture never start, and the recovery
    // failure's chain propagates unchanged.
    let chain = vec![Cause::ToolFailed, Cause::FirstRecoveryPass];
    let events = vec![
        PhaseOutcome::Completed,
        PhaseOutcome::Failed(chain.clone()),
    ];
    let (state, trace) = run_plan(start_plan(rip_damaged()), &events);
    assert_eq!(state, PlanState::Failed { chain });
    assert_eq!(trace, vec![Phase::Bin { keep_tocfile: true }, Phase::Iso]);
}

#[test]
fn plan_ignores_a_failed_completion_sound() {
    // The completion sound is best-effort: its failure does not end the
    // plan, and the key capture still runs.
    let events = vec![
        PhaseOutcome::Completed,
        PhaseOutcome::Failed(vec![Cause::ToolFailed]),
        PhaseOutcome::Completed,
    ];
    let (state, trace) = run_plan(start_plan(rip_cd()), &events);
    assert_eq!(state, PlanState::Done { phases: rip_cd() });
    assert_eq!(trace, rip_cd());
}

#[test]
fn empty_plan_is_done_at_once() {
    let state = start_plan(Vec::new());
    assert_eq!(plan_pending(&state), None);
    assert_eq!(state, PlanState::Done { phases: Vec::new() });
}

#[test]
fn device_handle_keeps_the_raw_path() {
    for path in ["/", "/etc", "/etc/passwd", "/nonexist"] {
        let d = DeviceHandle::new(path.as_bytes().to_vec());
        assert_eq!(d.device_path(), &path.as_bytes().to_vec());
    }
    // Bytes that are not valid UTF-8 pass through unmodified.
    let raw = vec![b'/', b't', 0xff, b'x'];
    let d = DeviceHandle::new(raw.clone());
    assert_eq!(d.device_path(), &raw);
}

#[test]
fn cd_key_capture_confirms_and_records_a_key() {
    let events = vec![
        KeyEvent::Line(b" ABC-123 ".to_vec()),
        KeyEvent::Line(b"y".to_vec()),
    ];
    let state = get_cd_key(&events);
    assert_eq!(state, KeyState::Record { key: b"ABC-123".to_vec() });
    assert_eq!(key_action(&state), Some(KeyAction::StoreKey));

    let events = vec![
        KeyEvent::Line(b"ABC".to_vec()),
        KeyEvent::Line(b"Y".to_vec()),
        KeyEvent::Recorded,
    ];
    assert_eq!(get_cd_key(&events), KeyState::Done);
}

#[test]
fn cd_key_capture_accepts_no_key() {
    // An empty answer, confirmed, means the medium has no key: nothing is
    // recorded.
    let events = vec![KeyEvent::Line(b"  ".to_vec()), KeyEvent::Line(b"y".to_vec())];
    assert_eq!(get_cd_key(&events), KeyState::Done);
}

#[test]
fn cd_key_capture_retries_on_declined_confirmation() {
    let events = vec![
        KeyEvent::Line(b"WRONG".to_vec()),
        KeyEvent::Line(b"n".to_vec()),
        KeyEvent::Line(b"RIGHT".to_vec()),
        KeyEvent::Line(b"y".to_vec()),
    ];
    assert_eq!(get_cd_key(&events), KeyState::Record { key: b"RIGHT".to_vec() });
}

#[test]
fn cd_key_confirmation_prompt_distinguishes_empty_candidates() {
    let state = get_cd_key(&vec![KeyEvent::Line(b"  ".to_vec())]);
    assert_eq!(key_action(&state), Some(KeyAction::ConfirmKey { empty: true }));
    let state = get_cd_key(&vec![KeyEvent::Line(b"K".to_vec())]);
    assert_eq!(key_action(&state), Some(KeyAction::ConfirmKey { empty: false }));
}
