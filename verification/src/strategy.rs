//! Dump strategies.
//!
//! Each strategy is a pure sequencing of external-tool invocations,
//! parameterised by the resolved disc name.  A strategy is a state machine:
//! the current state names the command the driver should perform next, the
//! driver reports what it observed, and the machine either advances, ends in
//! `Done`, or ends in `Failed` carrying a cause chain.  The machines decide
//! which tool runs, in what order, and how each exit status is treated; the
//! byte-for-byte subprocess invocation belongs to the driver.

use vstd::prelude::*;

use crate::bytes::{underscore_spaces, underscored};
use crate::cause::{chain2, Cause};

verus! {

/// Output artifacts, named `<base>.<extension>` beside the working directory.
#[derive(Debug, Clone, Copy, PartialEq, Eq, Structural)]
pub enum ArtifactKind {
    /// The raw sector data file.
    Bin,
    /// The table-of-contents description written by the raw dumper.
    Toc,
    /// The cue sheet derived from the table of contents.
    Cue,
    /// The recovered filesystem image.
    Iso,
    /// The recovery progress log shared by both recovery passes.
    Log,
}

/// The file extension of an artifact kind, as bytes.
pub open spec fn ext_of(kind: ArtifactKind) -> Seq<u8> {
    match kind {
        ArtifactKind::Bin => seq![98u8, 105u8, 110u8],  // "bin"
        ArtifactKind::Toc => seq![116u8, 111u8, 99u8],  // "toc"
        ArtifactKind::Cue => seq![99u8, 117u8, 101u8],  // "cue"
        ArtifactKind::Iso => seq![105u8, 115u8, 111u8],  // "iso"
        ArtifactKind::Log => seq![108u8, 111u8, 103u8],  // "log"
    }
}

/// The artifact file name: the base name, a dot, and the extension.
pub open spec fn artifact(base: Seq<u8>, kind: ArtifactKind) -> Seq<u8> {
    base + seq![46u8] + ext_of(kind)
}

/// The output base name derived from a disc name: every space becomes an
/// underscore, because the cue-sheet tool mishandles spaces in file names.
pub open spec fn base_name(disc_name: Seq<u8>) -> Seq<u8> {
    underscored(disc_name)
}

/// Build an artifact file name at run time.
pub fn artifact_name(base: &Vec<u8>, kind: ArtifactKind) -> (r: Vec<u8>)
    ensures
        r@ == artifact(base@, kind),
{
    let n = base.len();
    let mut r: Vec<u8> = Vec::new();
    let mut i: usize = 0;
    while i < n
        invariant
            0 <= i <= n,
            n == base@.len(),
            r@ =~= base@.subrange(0, i as int),
        decreases n - i,
    {
        r.push(base[i]);
        proof {
            assert(r@ =~= base@.subrange(0, i + 1 as int));
        }
        i += 1;
    }
    proof {
        assert(r@ =~= base@);
    }
    r.push(46);
    match kind {
        ArtifactKind::Bin => {
            r.push(98);
            r.push(105);
            r.push(110);
        },
        ArtifactKind::Toc => {
            r.push(116);
            r.push(111);
            r.push(99);
        },
        ArtifactKind::Cue => {
            r.push(99);
            r.push(117);
            r.push(101);
        },
        ArtifactKind::Iso => {
            r.push(105);
            r.push(115);
            r.push(111);
        },
        ArtifactKind::Log => {
            r.push(108);
            r.push(111);
            r.push(103);
        },
    }
    proof {
        assert(r@ =~= artifact(base@, kind));
    }
    r
}

/// One action a dump strategy asks its driver to perform.  Artifact names
/// are derived from the strategy's base name via `artifact`; track indices
/// refer to the list the driver reported with `Discovered`.
#[derive(Debug, Clone, Copy, PartialEq, Eq, Structural)]
pub enum DumpCommand {
    /// Run the raw-mode dumper: read the device into the `Bin` artifact and
    /// describe the layout in the `Toc` artifact.
    DumpBinToc,
    /// Derive the `Cue` artifact from the `Toc` artifact.
    GenerateCue,
    /// Remove the intermediate `Toc` artifact.
    RemoveToc,
    /// Run one recovery pass: read the device into the `Iso` artifact,
    /// recording progress in the `Log` artifact.  The direct pass re-reads
    /// only the regions the log marks as failed, with unbuffered access.
    RecoverImage {
        /// Whether this is the second, direct-access pass.
        direct: bool,
    },
    /// Run the verified audio extractor against the device.
    ExtractAudio,
    /// Discover the raw audio files the extractor left, by a
    /// case-insensitive glob for `*.wav`.
    DiscoverTracks,
    /// Transcode the discovered track with this index to the lossless format.
    EncodeTrack {
        /// Position of the track in the discovered list.
        index: usize,
    },
    /// Remove the raw file of the discovered track with this index.
    RemoveTrack {
        /// Position of the track in the discovered list.
        index: usize,
    },
}

/// The outcome of a file removal, as the driver observed it.
#[derive(Debug, Clone, Copy, PartialEq, Eq, Structural)]
pub enum RemoveOutcome {
    /// The file existed and was removed.
    Removed,
    /// The file was already absent.
    Missing,
    /// The file still exists but could not be removed.
    Failed,
}

/// What the driver observed after performing a command.
#[derive(Debug)]
pub enum StepEvent {
    /// Whether the subprocess ran to completion with a zero exit status.
    Exit(bool),
    /// The files found by the track-discovery glob, in discovery order.
    Discovered(Vec<Vec<u8>>),
    /// The outcome of a file removal.
    Removed(RemoveOutcome),
}

// --- raw-sector dump (BIN/TOC/CUE) ---

/// Progress of the raw-sector dump strategy.
#[derive(Debug, PartialEq, Eq)]
pub enum BinState {
    /// The raw dump has not completed yet.
    Dump,
    /// The cue sheet is being derived.
    Cue,
    /// The intermediate table-of-contents file is being removed.
    CleanToc,
    /// The strategy finished.
    Done,
    /// The strategy failed with this cause chain.
    Failed(Vec<Cause>),
}

/// Mathematical model of a `BinState`.
pub enum BinModel {
    /// Model of `BinState::Dump`.
    Dump,
    /// Model of `BinState::Cue`.
    Cue,
    /// Model of `BinState::CleanToc`.
    CleanToc,
    /// Model of `BinState::Done`.
    Done,
    /// Model of `BinState::Failed`.
    Failed(Seq<Cause>),
}

impl View for BinState {
    type V = BinModel;

    open spec fn view(&self) -> BinModel {
        match self {
            BinState::Dump => BinModel::Dump,
            BinState::Cue => BinModel::Cue,
            BinState::CleanToc => BinModel::CleanToc,
            BinState::Done => BinModel::Done,
            BinState::Failed(c) => BinModel::Failed(c@),
        }
    }
}

/// The raw-sector dump strategy: dump a BIN/TOC pair, derive the cue sheet,
/// then (unless the caller keeps it) discard the table-of-contents file.
/// Every step of it is fatal on failure, the cleanup included: a cleanup
/// that does not go as expected is a data-integrity concern, not a cosmetic
/// one.
#[derive(Debug, PartialEq, Eq)]
pub struct BinStrategy {
    /// Sanitised output base name.
    pub base: Vec<u8>,
    /// Whether the table-of-contents file is kept after the cue sheet exists.
    pub keep_tocfile: bool,
    /// Current progress.
    pub state: BinState,
}

/// One transition of the raw-sector dump machine.  An event that does not
/// answer the pending command changes nothing.
pub open spec fn bin_step(m: BinModel, keep_tocfile: bool, ev: StepEvent) -> BinModel {
    match m {
        BinModel::Dump => match ev {
            StepEvent::Exit(ok) => if ok {
                BinModel::Cue
            } else {
                BinModel::Failed(seq![Cause::ToolFailed, Cause::DumpingBinToc])
            },
            _ => m,
        },
        BinModel::Cue => match ev {
            StepEvent::Exit(ok) => if !ok {
                BinModel::Failed(seq![Cause::ToolFailed, Cause::GeneratingCue])
            } else if keep_tocfile {
                BinModel::Done
            } else {
                BinModel::CleanToc
            },
            _ => m,
        },
        BinModel::CleanToc => match ev {
            StepEvent::Removed(outcome) => if outcome is Removed {
                BinModel::Done
            } else {
                BinModel::Failed(seq![Cause::RemoveFailed, Cause::RemovingToc])
            },
            _ => m,
        },
        BinModel::Done => m,
        BinModel::Failed(_) => m,
    }
}

/// The command pending in a raw-sector dump state.
pub open spec fn bin_command_of(m: BinModel) -> Option<DumpCommand> {
    match m {
        BinModel::Dump => Some(DumpCommand::DumpBinToc),
        BinModel::Cue => Some(DumpCommand::GenerateCue),
        BinModel::CleanToc => Some(DumpCommand::RemoveToc),
        BinModel::Done => None,
        BinModel::Failed(_) => None,
    }
}

/// Begin the raw-sector dump strategy for a resolved disc name.
pub fn rip_bin(disc_name: &Vec<u8>, keep_tocfile: bool) -> (r: BinStrategy)
    ensures
        r.base@ == base_name(disc_name@),
        r.keep_tocfile == keep_tocfile,
        r.state@ == BinModel::Dump,
{
    BinStrategy { base: underscore_spaces(disc_name), keep_tocfile, state: BinState::Dump }
}

impl BinStrategy {
    /// The command the driver should perform next, if any.
    pub fn command(&self) -> (r: Option<DumpCommand>)
        ensures
            r == bin_command_of(self.state@),
    {
        match &self.state {
            BinState::Dump => Some(DumpCommand::DumpBinToc),
            BinState::Cue => Some(DumpCommand::GenerateCue),
            BinState::CleanToc => Some(DumpCommand::RemoveToc),
            BinState::Done => None,
            BinState::Failed(_) => None,
        }
    }

    /// Apply one observation.
    pub fn advance(self, ev: &StepEvent) -> (r: BinStrategy)
        ensures
            r.base@ == self.base@,
            r.keep_tocfile == self.keep_tocfile,
            r.state@ == bin_step(self.state@, self.keep_tocfile, *ev),
    {
        let BinStrategy { base, keep_tocfile, state } = self;
        let state = match state {
            BinState::Dump => match ev {
                StepEvent::Exit(ok) => if *ok {
                    BinState::Cue
                } else {
                    BinState::Failed(chain2(Cause::ToolFailed, Cause::DumpingBinToc))
                },
                _ => BinState::Dump,
            },
            BinState::Cue => match ev {
                StepEvent::Exit(ok) => if !*ok {
                    BinState::Failed(chain2(Cause::ToolFailed, Cause::GeneratingCue))
                } else if keep_tocfile {
                    BinState::Done
                } else {
                    BinState::CleanToc
                },
                _ => BinState::Cue,
            },
            BinState::CleanToc => match ev {
                StepEvent::Removed(outcome) => match outcome {
                    RemoveOutcome::Removed => BinState::Done,
                    _ => BinState::Failed(chain2(Cause::RemoveFailed, Cause::RemovingToc)),
                },
                _ => BinState::CleanToc,
            },
            BinState::Done => BinState::Done,
            BinState::Failed(c) => BinState::Failed(c),
        };
        BinStrategy { base, keep_tocfile, state }
    }
}

// --- two-pass image recovery ---

/// Progress of the image recovery strategy.
#[derive(Debug, PartialEq, Eq)]
pub enum IsoState {
    /// The first, sequential pass has not completed yet.
    FirstPass,
    /// The second, direct-access pass re-reading the failed regions.
    SecondPass,
    /// The strategy finished.
    Done,
    /// The strategy failed with this cause chain.
    Failed(Vec<Cause>),
}

/// Mathematical model of an `IsoState`.
pub enum IsoModel {
    /// Model of `IsoState::FirstPass`.
    FirstPass,
    /// Model of `IsoState::SecondPass`.
    SecondPass,
    /// Model of `IsoState::Done`.
    Done,
    /// Model of `IsoState::Failed`.
    Failed(Seq<Cause>),
}

impl View for IsoState {
    type V = IsoModel;

    open spec fn view(&self) -> IsoModel {
        match self {
            IsoState::FirstPass => IsoModel::FirstPass,
            IsoState::SecondPass => IsoModel::SecondPass,
            IsoState::Done => IsoModel::Done,
            IsoState::Failed(c) => IsoModel::Failed(c@),
        }
    }
}

/// The image recovery strategy: a sequential pass records a progress log,
/// then a direct-access pass re-attempts only the failed regions.  Both
/// passes are fatal on failure; the two-pass structure is itself the retry
/// policy, so no pass is reattempted internally.
#[derive(Debug, PartialEq, Eq)]
pub struct IsoStrategy {
    /// Sanitised output base name.
    pub base: Vec<u8>,
    /// Current progress.
    pub state: IsoState,
}

/// One transition of the image recovery machine.
pub open spec fn iso_step(m: IsoModel, ev: StepEvent) -> IsoModel {
    match m {
        IsoModel::FirstPass => match ev {
            StepEvent::Exit(ok) => if ok {
                IsoModel::SecondPass
            } else {
                IsoModel::Failed(seq![Cause::ToolFailed, Cause::FirstRecoveryPass])
            },
            _ => m,
        },
        IsoModel::SecondPass => match ev {
            StepEvent::Exit(ok) => if ok {
                IsoModel::Done
            } else {
                IsoModel::Failed(seq![Cause::ToolFailed, Cause::SecondRecoveryPass])
            },
            _ => m,
        },
        IsoModel::Done => m,
        IsoModel::Failed(_) => m,
    }
}

/// The command pending in an image recovery state.  A failed strategy asks
/// for nothing further: in particular, a failed first pass never reaches the
/// direct-access read.
pub open spec fn iso_command_of(m: IsoModel) -> Option<DumpCommand> {
    match m {
        IsoModel::FirstPass => Some(DumpCommand::RecoverImage { direct: false }),
        IsoModel::SecondPass => Some(DumpCommand::RecoverImage { direct: true }),
        IsoModel::Done => None,
        IsoModel::Failed(_) => None,
    }
}

/// Begin the image recovery strategy for a resolved disc name.
pub fn rip_iso(disc_name: &Vec<u8>) -> (r: IsoStrategy)
    ensures
        r.base@ == base_name(disc_name@),
        r.state@ == IsoModel::FirstPass,
{
    IsoStrategy { base: underscore_spaces(disc_name), state: IsoState::FirstPass }
}

impl IsoStrategy {
    /// The command the driver should perform next, if any.
    pub fn command(&self) -> (r: Option<DumpCommand>)
        ensures
            r == iso_command_of(self.state@),
    {
        match &self.state {
            IsoState::FirstPass => Some(DumpCommand::RecoverImage { direct: false }),
            IsoState::SecondPass => Some(DumpCommand::RecoverImage { direct: true }),
            IsoState::Done => None,
            IsoState::Failed(_) => None,
        }
    }

    /// Apply one observation.
    pub fn advance(self, ev: &StepEvent) -> (r: IsoStrategy)
        ensures
            r.base@ == self.base@,
            r.state@ == iso_step(self.state@, *ev),
    {
        let IsoStrategy { base, state } = self;
        let state = match state {
            IsoState::FirstPass => match ev {
                StepEvent::Exit(ok) => if *ok {
                    IsoState::SecondPass
                } else {
                    IsoState::Failed(chain2(Cause::ToolFailed, Cause::FirstRecoveryPass))
                },
                _ => IsoState::FirstPass,
            },
            IsoState::SecondPass => match ev {
                StepEvent::Exit(ok) => if *ok {
                    IsoState::Done
                } else {
                    IsoState::Failed(chain2(Cause::ToolFailed, Cause::SecondRecoveryPass))
                },
                _ => IsoState::SecondPass,
            },
            IsoState::Done => IsoState::Done,
            IsoState::Failed(c) => IsoState::Failed(c),
        };
        IsoStrategy { base, state }
    }
}

/// A failed first recovery pass ends the strategy at once: the machine
/// reports the failure and asks for no further command, so the direct-access
/// second pass is never attempted.
pub proof fn lemma_failed_first_pass_stops()
    ensures
        iso_step(IsoModel::FirstPass, StepEvent::Exit(false))
            == IsoModel::Failed(seq![Cause::ToolFailed, Cause::FirstRecoveryPass]),
        iso_command_of(iso_step(IsoModel::FirstPass, StepEvent::Exit(false))) is None,
{
}

// --- audio extraction ---

/// The views of a list of byte vectors.
pub open spec fn files_view(files: Seq<Vec<u8>>) -> Seq<Seq<u8>> {
    files.map_values(|f: Vec<u8>| f@)
}

/// Progress of the audio extraction strategy.
#[derive(Debug, PartialEq, Eq)]
pub enum AudioState {
    /// The extractor has not completed yet.
    Extract,
    /// The raw files left by the extractor are being discovered.
    Discover,
    /// The track at `next` is being transcoded.
    Encode {
        /// The discovered raw files, in discovery order.
        files: Vec<Vec<u8>>,
        /// Index of the track being processed.
        next: usize,
    },
    /// The raw file of the track at `next` is being removed.
    Remove {
        /// The discovered raw files, in discovery order.
        files: Vec<Vec<u8>>,
        /// Index of the track being processed.
        next: usize,
    },
    /// Every discovered track was transcoded and its raw file dealt with.
    Done {
        /// The discovered raw files, in discovery order.
        files: Vec<Vec<u8>>,
    },
    /// The strategy failed with this cause chain.
    Failed(Vec<Cause>),
}

/// Mathematical model of an `AudioState`.
pub enum AudioModel {
    /// Model of `AudioState::Extract`.
    Extract,
    /// Model of `AudioState::Discover`.
    Discover,
    /// Model of `AudioState::Encode`.
    Encode {
        /// Views of the discovered raw files.
        files: Seq<Seq<u8>>,
        /// Index of the track being processed.
        next: usize,
    },
    /// Model of `AudioState::Remove`.
    Remove {
        /// Views of the discovered raw files.
        files: Seq<Seq<u8>>,
        /// Index of the track being processed.
        next: usize,
    },
    /// Model of `AudioState::Done`.
    Done {
        /// Views of the discovered raw files.
        files: Seq<Seq<u8>>,
    },
    /// Model of `AudioState::Failed`.
    Failed(Seq<Cause>),
}

impl View for AudioState {
    type V = AudioModel;

    open spec fn view(&self) -> AudioModel {
        match self {
            AudioState::Extract => AudioModel::Extract,
            AudioState::Discover => AudioModel::Discover,
            AudioState::Encode { files, next } => AudioModel::Encode {
                files: files_view(files@),
                next: *next,
            },
            AudioState::Remove { files, next } => AudioModel::Remove {
                files: files_view(files@),
                next: *next,
            },
            AudioState::Done { files } => AudioModel::Done { files: files_view(files@) },
            AudioState::Failed(c) => AudioModel::Failed(c@),
        }
    }
}

/// One transition of the audio extraction machine.  Extraction and every
/// transcode are fatal on failure.  A removal failure is tolerated only when
/// the file is already absent; a file that still exists but cannot be
/// removed aborts the remaining batch.
pub open spec fn audio_step(m: AudioModel, ev: StepEvent) -> AudioModel {
    match m {
        AudioModel::Extract => match ev {
            StepEvent::Exit(ok) => if ok {
                AudioModel::Discover
            } else {
                AudioModel::Failed(seq![Cause::ToolFailed, Cause::ExtractingAudio])
            },
            _ => m,
        },
        AudioModel::Discover => match ev {
            StepEvent::Discovered(found) => if found@.len() == 0 {
                AudioModel::Done { files: files_view(found@) }
            } else {
                AudioModel::Encode { files: files_view(found@), next: 0 }
            },
            _ => m,
        },
        AudioModel::Encode { files, next } => match ev {
            StepEvent::Exit(ok) => if ok {
                AudioModel::Remove { files, next }
            } else {
                AudioModel::Failed(seq![Cause::ToolFailed, Cause::EncodingTrack { index: next }])
            },
            _ => m,
        },
        AudioModel::Remove { files, next } => match ev {
            StepEvent::Removed(outcome) => if outcome is Failed {
                AudioModel::Failed(seq![Cause::RemoveFailed, Cause::RemovingTrack { index: next }])
            } else if next + 1 < files.len() {
                AudioModel::Encode { files, next: (next + 1) as usize }
            } else {
                AudioModel::Done { files }
            },
            _ => m,
        },
        AudioModel::Done { .. } => m,
        AudioModel::Failed(_) => m,
    }
}

/// Well-formedness of an audio state: while a track is being processed, its
/// index lies inside the discovered list.
pub open spec fn audio_wf(m: AudioModel) -> bool {
    match m {
        AudioModel::Encode { files, next } => next < files.len(),
        AudioModel::Remove { files, next } => next < files.len(),
        _ => true,
    }
}

/// Every reachable audio state is well formed: the starting state is, and
/// each step preserves it.
pub proof fn lemma_audio_step_wf(m: AudioModel, ev: StepEvent)
    requires
        audio_wf(m),
    ensures
        audio_wf(AudioModel::Extract),
        audio_wf(audio_step(m, ev)),
{
}

/// The command pending in an audio extraction state.
pub open spec fn audio_command_of(m: AudioModel) -> Option<DumpCommand> {
    match m {
        AudioModel::Extract => Some(DumpCommand::ExtractAudio),
        AudioModel::Discover => Some(DumpCommand::DiscoverTracks),
        AudioModel::Encode { next, .. } => Some(DumpCommand::EncodeTrack { index: next }),
        AudioModel::Remove { next, .. } => Some(DumpCommand::RemoveTrack { index: next }),
        AudioModel::Done { .. } => None,
        AudioModel::Failed(_) => None,
    }
}

/// Begin the audio extraction strategy.  The output names are chosen by the
/// extractor and transcoder themselves, so no disc name is involved.
pub fn rip_audio() -> (r: AudioState)
    ensures
        r@ == AudioModel::Extract,
{
    AudioState::Extract
}

/// The command the driver should perform next in an audio state, if any.
pub fn audio_command(state: &AudioState) -> (r: Option<DumpCommand>)
    ensures
        r == audio_command_of(state@),
{
    match state {
        AudioState::Extract => Some(DumpCommand::ExtractAudio),
        AudioState::Discover => Some(DumpCommand::DiscoverTracks),
        AudioState::Encode { next, .. } => Some(DumpCommand::EncodeTrack { index: *next }),
        AudioState::Remove { next, .. } => Some(DumpCommand::RemoveTrack { index: *next }),
        AudioState::Done { .. } => None,
        AudioState::Failed(_) => None,
    }
}

/// Apply one observation to the audio extraction machine.
pub fn audio_advance(state: AudioState, ev: &StepEvent) -> (r: AudioState)
    ensures
        r@ == audio_step(state@, *ev),
{
    match state {
        AudioState::Extract => match ev {
            StepEvent::Exit(ok) => if *ok {
                AudioState::Discover
            } else {
                AudioState::Failed(chain2(Cause::ToolFailed, Cause::ExtractingAudio))
            },
            _ => AudioState::Extract,
        },
        AudioState::Discover => match ev {
            StepEvent::Discovered(found) => {
                let files = clone_files(found);
                if files.len() == 0 {
                    AudioState::Done { files }
                } else {
                    AudioState::Encode { files, next: 0 }
                }
            },
            _ => AudioState::Discover,
        },
        AudioState::Encode { files, next } => match ev {
            StepEvent::Exit(ok) => if *ok {
                AudioState::Remove { files, next }
            } else {
                AudioState::Failed(
                    chain2(Cause::ToolFailed, Cause::EncodingTrack { index: next }),
                )
            },
            _ => AudioState::Encode { files, next },
        },
        AudioState::Remove { files, next } => match ev {
            StepEvent::Removed(outcome) => match outcome {
                RemoveOutcome::Failed => AudioState::Failed(
                    chain2(Cause::RemoveFailed, Cause::RemovingTrack { index: next }),
                ),
                _ => {
                    let n = files.len();
                    if n > 0 && next < n - 1 {
                        AudioState::Encode { files, next: next + 1 }
                    } else {
                        AudioState::Done { files }
                    }
                },
            },
            _ => AudioState::Remove { files, next },
        },
        AudioState::Done { files } => AudioState::Done { files },
        AudioState::Failed(c) => AudioState::Failed(c),
    }
}

/// Copy a discovered file list, element by element.
fn clone_files(found: &Vec<Vec<u8>>) -> (r: Vec<Vec<u8>>)
    ensures
        files_view(r@) == files_view(found@),
        r@.len() == found@.len(),
{
    let n = found.len();
    let mut r: Vec<Vec<u8>> = Vec::new();
    let mut i: usize = 0;
    while i < n
        invariant
            0 <= i <= n,
            n == found@.len(),
            r@.len() == i,
            forall|j: int| 0 <= j < i ==> #[trigger] r@[j]@ == found@[j]@,
        decreases n - i,
    {
        let mut item: Vec<u8> = Vec::new();
        let f = &found[i];
        let fl = f.len();
        let mut k: usize = 0;
        while k < fl
            invariant
                0 <= k <= fl,
                fl == f@.len(),
                item@ =~= f@.subrange(0, k as int),
            decreases fl - k,
        {
            item.push(f[k]);
            proof {
                assert(item@ =~= f@.subrange(0, k + 1 as int));
            }
            k += 1;
        }
        proof {
            assert(item@ =~= f@);
        }
        r.push(item);
        i += 1;
    }
    proof {
        assert(files_view(r@) =~= files_view(found@));
    }
    r
}

/// A whole audio run: fold events into the machine while a command is
/// pending, collecting the commands the machine asked for.
pub open spec fn audio_run(m: AudioModel, evs: Seq<StepEvent>) -> (AudioModel, Seq<DumpCommand>)
    decreases evs.len(),
{
    if evs.len() == 0 || audio_command_of(m) is None {
        (m, Seq::<DumpCommand>::empty())
    } else {
        let cmd = match audio_command_of(m) {
            Some(c) => c,
            None => DumpCommand::ExtractAudio,
        };
        let rest = audio_run(audio_step(m, evs[0]), evs.drop_first());
        (rest.0, seq![cmd] + rest.1)
    }
}

/// Folding one more event onto an audio run performs one more pending
/// command, and changes nothing once no command is pending.
pub proof fn lemma_audio_run_snoc(m: AudioModel, evs: Seq<StepEvent>, ev: StepEvent)
    ensures
        audio_command_of(audio_run(m, evs).0) is None
            ==> audio_run(m, evs.push(ev)) == audio_run(m, evs),
        audio_command_of(audio_run(m, evs).0) matches Some(cmd) ==> {
            &&& audio_run(m, evs.push(ev)).0 == audio_step(audio_run(m, evs).0, ev)
            &&& audio_run(m, evs.push(ev)).1 == audio_run(m, evs).1.push(cmd)
        },
    decreases evs.len(),
{
    if audio_command_of(m) is None {
        assert(audio_run(m, evs) == (m, Seq::<DumpCommand>::empty()));
        assert(audio_run(m, evs.push(ev)) == (m, Seq::<DumpCommand>::empty()));
    } else if evs.len() == 0 {
        let cmd = match audio_command_of(m) {
            Some(c) => c,
            None => DumpCommand::ExtractAudio,
        };
        assert(evs.push(ev)[0] == ev);
        assert(evs.push(ev).drop_first() =~= Seq::<StepEvent>::empty());
        assert(audio_run(audio_step(m, ev), evs.push(ev).drop_first())
            == (audio_step(m, ev), Seq::<DumpCommand>::empty()));
        assert(audio_run(m, evs.push(ev)).0 == audio_step(m, ev));
        assert(audio_run(m, evs.push(ev)).1 =~= Seq::<DumpCommand>::empty().push(cmd));
        assert(audio_run(m, evs) == (m, Seq::<DumpCommand>::empty()));
    } else {
        let cmd0 = match audio_command_of(m) {
            Some(c) => c,
            None => DumpCommand::ExtractAudio,
        };
        assert(evs.push(ev)[0] == evs[0]);
        assert(evs.push(ev).drop_first() =~= evs.drop_first().push(ev));
        let m1 = audio_step(m, evs[0]);
        lemma_audio_run_snoc(m1, evs.drop_first(), ev);
        let r = audio_run(m1, evs.drop_first());
        let r2 = audio_run(m1, evs.drop_first().push(ev));
        assert(audio_run(m, evs.push(ev)).0 == r2.0);
        assert(audio_run(m, evs.push(ev)).1 == seq![cmd0] + r2.1);
        assert(audio_run(m, evs).0 == r.0);
        assert(audio_run(m, evs).1 == seq![cmd0] + r.1);
        if audio_command_of(r.0) is None {
            assert(r2 == r);
        } else {
            let cmd = match audio_command_of(r.0) {
                Some(c) => c,
                None => DumpCommand::ExtractAudio,
            };
            assert(r2.1 == r.1.push(cmd));
            assert(seq![cmd0] + r.1.push(cmd) =~= (seq![cmd0] + r.1).push(cmd));
        }
    }
}

/// Run the audio extraction machine over a recorded series of observations,
/// returning the final state and the commands it asked for, in order.
pub fn run_audio(start: AudioState, events: &Vec<StepEvent>) -> (r: (AudioState, Vec<DumpCommand>))
    ensures
        r.0@ == audio_run(start@, events@).0,
        r.1@ == audio_run(start@, events@).1,
{
    let ghost m0 = start@;
    let mut state = start;
    let mut trace: Vec<DumpCommand> = Vec::new();
    let n = events.len();
    let mut i: usize = 0;
    proof {
        assert(events@.subrange(0, 0) =~= Seq::<StepEvent>::empty());
    }
    while i < n
        invariant
            0 <= i <= n,
            n == events@.len(),
            state@ == audio_run(m0, events@.subrange(0, i as int)).0,
            trace@ == audio_run(m0, events@.subrange(0, i as int)).1,
        decreases n - i,
    {
        proof {
            assert(events@.subrange(0, i + 1 as int)
                =~= events@.subrange(0, i as int).push(events@[i as int]));
            lemma_audio_run_snoc(m0, events@.subrange(0, i as int), events@[i as int]);
        }
        match audio_command(&state) {
            Some(c) => {
                trace.push(c);
                state = audio_advance(state, &events[i]);
            },
            None => {},
        }
        i += 1;
    }
    proof {
        assert(events@.subrange(0, n as int) =~= events@);
    }
    (state, trace)
}

/// The transcode-then-remove commands for the tracks from `next` up to `n`,
/// one pair per track, in order.
pub open spec fn pair_trace(next: int, n: int) -> Seq<DumpCommand>
    decreases n - next,
{
    if next < 0 || next >= n {
        Seq::<DumpCommand>::empty()
    } else {
        seq![
            DumpCommand::EncodeTrack { index: next as usize },
            DumpCommand::RemoveTrack { index: next as usize },
        ] + pair_trace(next + 1, n)
    }
}

/// Auxiliary induction for `lemma_audio_full_batch`: from track `next` on,
/// a run whose transcodes all succeed and whose removals all find the file
/// present or already absent processes each remaining track exactly once and
/// ends with the whole batch done.
proof fn lemma_audio_pairs(files: Seq<Seq<u8>>, next: usize, evs: Seq<StepEvent>)
    requires
        next < files.len() <= usize::MAX,
        evs.len() == 2 * (files.len() - next),
        forall|k: int| 0 <= 2 * k < evs.len()
            ==> ((#[trigger] evs[2 * k]) matches StepEvent::Exit(ok) && ok),
        forall|k: int| 0 <= 2 * k + 1 < evs.len()
            ==> ((#[trigger] evs[2 * k + 1]) matches StepEvent::Removed(o) && !(o is Failed)),
    ensures
        audio_run((AudioModel::Encode { files, next }), evs).0 == (AudioModel::Done { files }),
        audio_run((AudioModel::Encode { files, next }), evs).1
            == pair_trace(next as int, files.len() as int),
    decreases files.len() - next,
{
    let m = AudioModel::Encode { files, next };
    assert(evs[2 * 0int] matches StepEvent::Exit(ok) && ok);
    assert(evs[2 * 0int + 1] matches StepEvent::Removed(o) && !(o is Failed));
    let m1 = audio_step(m, evs[0]);
    assert(m1 == AudioModel::Remove { files, next });
    let evs1 = evs.drop_first();
    assert(evs1[0] == evs[1]);
    let m2 = audio_step(m1, evs1[0]);
    let evs2 = evs1.drop_first();
    assert(evs2 =~= evs.skip(2));
    assert(audio_run(m, evs).1
        == seq![DumpCommand::EncodeTrack { index: next }] + audio_run(m1, evs1).1);
    assert(audio_run(m1, evs1).1
        == seq![DumpCommand::RemoveTrack { index: next }] + audio_run(m2, evs2).1);
    assert(audio_run(m, evs).0 == audio_run(m2, evs2).0);
    if next + 1 < files.len() {
        assert(m2 == AudioModel::Encode { files, next: (next + 1) as usize });
        assert forall|k: int| 0 <= 2 * k < evs2.len()
            implies (#[trigger] evs2[2 * k]) matches StepEvent::Exit(ok) && ok by {
            assert(evs2[2 * k] == evs[2 * (k + 1)]);
        }
        assert forall|k: int| 0 <= 2 * k + 1 < evs2.len()
            implies (#[trigger] evs2[2 * k + 1]) matches StepEvent::Removed(o) && !(o is Failed)
            by {
            assert(evs2[2 * k + 1] == evs[2 * (k + 1) + 1]);
        }
        lemma_audio_pairs(files, (next + 1) as usize, evs2);
        let tail = audio_run(m2, evs2).1;
        assert(((next + 1) as usize) as int == next as int + 1);
        assert(tail == pair_trace(next as int + 1, files.len() as int));
        assert((next as int) as usize == next);
        assert(pair_trace(next as int, files.len() as int)
            =~= seq![
                DumpCommand::EncodeTrack { index: next },
                DumpCommand::RemoveTrack { index: next },
            ] + pair_trace(next as int + 1, files.len() as int));
        assert(seq![DumpCommand::EncodeTrack { index: next }]
            + (seq![DumpCommand::RemoveTrack { index: next }] + tail)
            =~= seq![
                DumpCommand::EncodeTrack { index: next },
                DumpCommand::RemoveTrack { index: next },
            ] + tail);
        assert(audio_run(m, evs).1
            =~= pair_trace(next as int, files.len() as int));
    } else {
        assert(m2 == AudioModel::Done { files });
        assert(evs2.len() == 0);
        assert(audio_run(m2, evs2) == (m2, Seq::<DumpCommand>::empty()));
        assert((next as int) as usize == next);
        assert(pair_trace(next as int + 1, files.len() as int) == Seq::<DumpCommand>::empty());
        assert(pair_trace(next as int, files.len() as int)
            =~= seq![
                DumpCommand::EncodeTrack { index: next },
                DumpCommand::RemoveTrack { index: next },
            ] + pair_trace(next as int + 1, files.len() as int));
        assert(audio_run(m, evs).1
            =~= pair_trace(next as int, files.len() as int));
    }
}

/// A removal failure is tolerated exactly when the file is already absent:
/// a removal that finds its file missing never aborts the batch, while a
/// removal that leaves the file in place ends it with a removal-rooted
/// cause chain.
pub proof fn lemma_removal_tolerance(files: Seq<Seq<u8>>, next: usize)
    ensures
        !(audio_step(
            (AudioModel::Remove { files, next }),
            StepEvent::Removed(RemoveOutcome::Missing),
        ) is Failed),
        audio_step(
            (AudioModel::Remove { files, next }),
            StepEvent::Removed(RemoveOutcome::Failed),
        ) == AudioModel::Failed(seq![Cause::RemoveFailed, Cause::RemovingTrack { index: next }]),
{
}

/// For N discovered raw-audio files, a run in which extraction succeeds,
/// discovery reports the N files, every transcode succeeds, and every
/// removal either removes its file or finds it already absent, ends with the
/// whole batch processed: the machine is `Done`, and the command trace asks
/// to transcode each discovered track and to remove its raw file exactly
/// once, one pair per track, in order.  A removal that fails on a file still
/// present would instead abort the batch (see `audio_step`).
pub proof fn lemma_audio_full_batch(found: Vec<Vec<u8>>, evs: Seq<StepEvent>)
    requires
        found@.len() <= usize::MAX,
        evs.len() == 2 + 2 * found@.len(),
        (evs[0] matches StepEvent::Exit(ok) && ok),
        evs[1] == StepEvent::Discovered(found),
        forall|k: int| 0 <= 2 * k + 2 < evs.len()
            ==> ((#[trigger] evs[2 * k + 2]) matches StepEvent::Exit(ok) && ok),
        forall|k: int| 0 <= 2 * k + 3 < evs.len()
            ==> ((#[trigger] evs[2 * k + 3]) matches StepEvent::Removed(o) && !(o is Failed)),
    ensures
        audio_run(AudioModel::Extract, evs).0
            == (AudioModel::Done { files: files_view(found@) }),
        audio_run(AudioModel::Extract, evs).1
            == seq![DumpCommand::ExtractAudio, DumpCommand::DiscoverTracks]
                + pair_trace(0, found@.len() as int),
{
    let m = AudioModel::Extract;
    let m1 = audio_step(m, evs[0]);
    assert(m1 == AudioModel::Discover);
    let evs1 = evs.drop_first();
    assert(evs1[0] == evs[1]);
    let m2 = audio_step(m1, evs1[0]);
    let evs2 = evs1.drop_first();
    assert(evs2 =~= evs.skip(2));
    assert(audio_run(m, evs).1
        == seq![DumpCommand::ExtractAudio] + audio_run(m1, evs1).1);
    assert(audio_run(m1, evs1).1
        == seq![DumpCommand::DiscoverTracks] + audio_run(m2, evs2).1);
    assert(audio_run(m, evs).0 == audio_run(m2, evs2).0);
    let files = files_view(found@);
    if found@.len() == 0 {
        assert(m2 == AudioModel::Done { files });
        assert(evs2.len() == 0);
        assert(audio_run(m2, evs2) == (m2, Seq::<DumpCommand>::empty()));
        assert(audio_run(m, evs).1
            =~= seq![DumpCommand::ExtractAudio, DumpCommand::DiscoverTracks]
                + pair_trace(0, found@.len() as int));
    } else {
        assert(m2 == AudioModel::Encode { files, next: 0usize });
        assert forall|k: int| 0 <= 2 * k < evs2.len()
            implies (#[trigger] evs2[2 * k]) matches StepEvent::Exit(ok) && ok by {
            assert(evs2[2 * k] == evs[2 * k + 2]);
        }
        assert forall|k: int| 0 <= 2 * k + 1 < evs2.len()
            implies (#[trigger] evs2[2 * k + 1]) matches StepEvent::Removed(o) && !(o is Failed)
            by {
            assert(evs2[2 * k + 1] == evs[2 * k + 3]);
        }
        assert(files.len() == found@.len());
        lemma_audio_pairs(files, 0usize, evs2);
        assert(audio_run(m, evs).1
            =~= seq![DumpCommand::ExtractAudio, DumpCommand::DiscoverTracks]
                + pair_trace(0, found@.len() as int));
    }
}

} // verus!
