use rip_media::cause::Cause;
use rip_media::strategy::{
    artifact_name, audio_command, rip_audio, rip_bin, rip_iso, run_audio, ArtifactKind,
    AudioState, BinState, DumpCommand, IsoState, RemoveOutcome, StepEvent,
};

#[test]
fn artifact_names_are_base_dot_extension() {
    let base = b"Game_1".to_vec();
    assert_eq!(artifact_name(&base, ArtifactKind::Bin), b"Game_1.bin".to_vec());
    assert_eq!(artifact_name(&base, ArtifactKind::Toc), b"Game_1.toc".to_vec());
    assert_eq!(artifact_name(&base, ArtifactKind::Cue), b"Game_1.cue".to_vec());
    assert_eq!(artifact_name(&base, ArtifactKind::Iso), b"Game_1.iso".to_vec());
    assert_eq!(artifact_name(&base, ArtifactKind::Log), b"Game_1.log".to_vec());
}

#[test]
fn rip_bin_sanitizes_the_disc_name() {
    let s = rip_bin(&b"My Game Disc".to_vec(), true);
    assert_eq!(s.base, b"My_Game_Disc".to_vec());
    assert_eq!(s.state, BinState::Dump);
}

#[test]
fn bin_strategy_happy_path_keeping_tocfile() {
    let s = rip_bin(&b"D".to_vec(), true);
    assert_eq!(s.command(), Some(DumpCommand::DumpBinToc));
    let s = s.advance(&StepEvent::Exit(true));
    assert_eq!(s.command(), Some(DumpCommand::GenerateCue));
    let s = s.advance(&StepEvent::Exit(true));
    assert_eq!(s.state, BinState::Done);
    assert_eq!(s.command(), None);
}

#[test]
fn bin_strategy_removes_tocfile_when_not_kept() {
    let s = rip_bin(&b"D".to_vec(), false);
    let s = s.advance(&StepEvent::Exit(true));
    let s = s.advance(&StepEvent::Exit(true));
    assert_eq!(s.command(), Some(DumpCommand::RemoveToc));
    let s = s.advance(&StepEvent::Removed(RemoveOutcome::Removed));
    assert_eq!(s.state, BinState::Done);
}

#[test]
fn bin_strategy_dump_failure_is_fatal() {
    let s = rip_bin(&b"D".to_vec(), true);
    let s = s.advance(&StepEvent::Exit(false));
    assert_eq!(
        s.state,
        BinState::Failed(vec![Cause::ToolFailed, Cause::DumpingBinToc])
    );
    assert_eq!(s.command(), None);
}

#[test]
fn bin_strategy_cleanup_failure_is_fatal_even_when_file_is_missing() {
    // The table-of-contents file is an intermediate artifact; its cleanup is
    // a data-integrity concern, so even an already-absent file is fatal here.
    let s = rip_bin(&b"D".to_vec(), false);
    let s = s.advance(&StepEvent::Exit(true));
    let s = s.advance(&StepEvent::Exit(true));
    let s = s.advance(&StepEvent::Removed(RemoveOutcome::Missing));
    assert_eq!(
        s.state,
        BinState::Failed(vec![Cause::RemoveFailed, Cause::RemovingToc])
    );
}

#[test]
fn iso_strategy_runs_two_passes_in_order() {
    let s = rip_iso(&b"A Disc".to_vec());
    assert_eq!(s.base, b"A_Disc".to_vec());
    assert_eq!(s.command(), Some(DumpCommand::RecoverImage { direct: false }));
    let s = s.advance(&StepEvent::Exit(true));
    assert_eq!(s.command(), Some(DumpCommand::RecoverImage { direct: true }));
    let s = s.advance(&StepEvent::Exit(true));
    assert_eq!(s.state, IsoState::Done);
    assert_eq!(s.command(), None);
}

#[test]
fn iso_strategy_failed_first_pass_skips_direct_pass() {
    // A failed first pass ends the strategy: no direct-mode read is asked
    // for afterwards.
    let s = rip_iso(&b"D".to_vec());
    assert_eq!(s.command(), Some(DumpCommand::RecoverImage { direct: false }));
    let s = s.advance(&StepEvent::Exit(false));
    assert_eq!(
        s.state,
        IsoState::Failed(vec![Cause::ToolFailed, Cause::FirstRecoveryPass])
    );
    assert_eq!(s.command(), None);
}

#[test]
fn iso_strategy_second_pass_failure_is_fatal() {
    let s = rip_iso(&b"D".to_vec());
    let s = s.advance(&StepEvent::Exit(true));
    let s = s.advance(&StepEvent::Exit(false));
    assert_eq!(
        s.state,
        IsoState::Failed(vec![Cause::ToolFailed, Cause::SecondRecoveryPass])
    );
}

#[test]
fn audio_strategy_processes_every_discovered_file_once() {
    let files = vec![b"01.wav".to_vec(), b"02.wav".to_vec(), b"03.wav".to_vec()];
    let events = vec![
        StepEvent::Exit(true),
        StepEvent::Discovered(files.clone()),
        StepEvent::Exit(true),
        StepEvent::Removed(RemoveOutcome::Removed),
        StepEvent::Exit(true),
        StepEvent::Removed(RemoveOutcome::Missing),
        StepEvent::Exit(true),
        StepEvent::Removed(RemoveOutcome::Removed),
    ];
    let (state, trace) = run_audio(rip_audio(), &events);
    assert_eq!(state, AudioState::Done { files });
    assert_eq!(
        trace,
        vec![
            DumpCommand::ExtractAudio,
            DumpCommand::DiscoverTracks,
            DumpCommand::EncodeTrack { index: 0 },
            DumpCommand::RemoveTrack { index: 0 },
            DumpCommand::EncodeTrack { index: 1 },
            DumpCommand::RemoveTrack { index: 1 },
            DumpCommand::EncodeTrack { index: 2 },
            DumpCommand::RemoveTrack { index: 2 },
        ]
    );
}

#[test]
fn audio_strategy_no_tracks_found_is_success() {
    let events = vec![StepEvent::Exit(true), StepEvent::Discovered(Vec::new())];
    let (state, trace) = run_audio(rip_audio(), &events);
    assert_eq!(state, AudioState::Done { files: Vec::new() });
    assert_eq!(
        trace,
        vec![DumpCommand::ExtractAudio, DumpCommand::DiscoverTracks]
    );
}

#[test]
fn audio_strategy_tolerates_removal_of_an_absent_file() {
    // A deletion failure on a file that is independently confirmed missing
    // does not abort the batch.
    let files = vec![b"a.wav".to_vec(), b"b.wav".to_vec()];
    let events = vec![
        StepEvent::Exit(true),
        StepEvent::Discovered(files.clone()),
        StepEvent::Exit(true),
        StepEvent::Removed(RemoveOutcome::Missing),
        StepEvent::Exit(true),
        StepEvent::Removed(RemoveOutcome::Removed),
    ];
    let (state, _) = run_audio(rip_audio(), &events);
    assert_eq!(state, AudioState::Done { files });
}

#[test]
fn audio_strategy_aborts_when_an_existing_file_cannot_be_removed() {
    // A deletion failure on a file that still exists aborts the batch.
    let files = vec![b"a.wav".to_vec(), b"b.wav".to_vec()];
    let events = vec![
        StepEvent::Exit(true),
        StepEvent::Discovered(files),
        StepEvent::Exit(true),
        StepEvent::Removed(RemoveOutcome::Failed),
    ];
    let (state, trace) = run_audio(rip_audio(), &events);
    assert_eq!(
        state,
        AudioState::Failed(vec![Cause::RemoveFailed, Cause::RemovingTrack { index: 0 }])
    );
    // The second track was never attempted.
    assert_eq!(
        trace,
        vec![
            DumpCommand::ExtractAudio,
            DumpCommand::DiscoverTracks,
            DumpCommand::EncodeTrack { index: 0 },
            DumpCommand::RemoveTrack { index: 0 },
        ]
    );
}

#[test]
fn audio_strategy_encode_failure_is_fatal() {
    let files = vec![b"a.wav".to_vec()];
    let events = vec![
        StepEvent::Exit(true),
        StepEvent::Discovered(files),
        StepEvent::Exit(false),
    ];
    let (state, _) = run_audio(rip_audio(), &events);
    assert_eq!(
        state,
        AudioState::Failed(vec![Cause::ToolFailed, Cause::EncodingTrack { index: 0 }])
    );
}

#[test]
fn audio_strategy_extraction_failure_is_fatal() {
    let events = vec![StepEvent::Exit(false)];
    let (state, _) = run_audio(rip_audio(), &events);
    assert_eq!(
        state,
        AudioState::Failed(vec![Cause::ToolFailed, Cause::ExtractingAudio])
    );
    let s = rip_audio();
    assert_eq!(audio_command(&s), Some(DumpCommand::ExtractAudio));
}
