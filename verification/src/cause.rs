//! Failure taxonomy.
//!
//! A fatal failure carries a cause chain: an ordered list of causes with the
//! innermost (root) cause first, each later entry naming the operation that
//! was being attempted when the inner failure surfaced.  Chains hold no raw
//! OS error codes; the driver that observed the underlying failure keeps
//! those details and renders the chain for the user.

use vstd::prelude::*;

verus! {

/// One entry of a cause chain.
#[derive(Debug, Clone, Copy, PartialEq, Eq, Structural)]
pub enum Cause {
    /// Root: a subprocess could not be run or exited with non-zero status.
    ToolFailed,
    /// Root: a file that still exists could not be removed.
    RemoveFailed,
    /// Root: a bounded wait gave up.
    Timeout,
    /// Root: the interactive input stream failed.
    InputClosed,
    /// Context: dumping the raw data and table-of-contents pair.
    DumpingBinToc,
    /// Context: deriving the cue sheet from the table of contents.
    GeneratingCue,
    /// Context: removing the intermediate table-of-contents file.
    RemovingToc,
    /// Context: the first, sequential recovery pass.
    FirstRecoveryPass,
    /// Context: the second, direct-access recovery pass.
    SecondRecoveryPass,
    /// Context: extracting the audio tracks.
    ExtractingAudio,
    /// Context: transcoding the discovered track with this index.
    EncodingTrack {
        /// Position of the track in the discovered list.
        index: usize,
    },
    /// Context: removing the raw file of the discovered track with this index.
    RemovingTrack {
        /// Position of the track in the discovered list.
        index: usize,
    },
    /// Context: prompting for media insertion.
    AwaitingInsertion,
    /// Context: closing the device tray.
    LoadingMedia,
    /// Context: waiting for the device to become ready.
    WaitingForReady,
    /// Context: releasing the filesystem mount.
    UnmountingMedia,
}

/// Build the two-entry chain `root` wrapped by `context`.
pub fn chain2(root: Cause, context: Cause) -> (r: Vec<Cause>)
    ensures
        r@ == seq![root, context],
{
    let mut r: Vec<Cause> = Vec::new();
    r.push(root);
    r.push(context);
    proof {
        assert(r@ =~= seq![root, context]);
    }
    r
}

/// Copy a cause chain, entry by entry.
pub fn copy_chain(chain: &Vec<Cause>) -> (r: Vec<Cause>)
    ensures
        r@ == chain@,
{
    let n = chain.len();
    let mut r: Vec<Cause> = Vec::new();
    let mut i: usize = 0;
    while i < n
        invariant
            0 <= i <= n,
            n == chain@.len(),
            r@ =~= chain@.subrange(0, i as int),
        decreases n - i,
    {
        r.push(chain[i]);
        proof {
            assert(r@ =~= chain@.subrange(0, i + 1 as int));
        }
        i += 1;
    }
    proof {
        assert(r@ =~= chain@);
    }
    r
}

} // verus!
