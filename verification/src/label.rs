//! Volume-label recovery.
//!
//! A medium's label is resolved through a priority chain: an explicit
//! caller-supplied override, then the platform's volume-metadata query, then
//! a raw read of the on-disk header, and finally an interactive prompt that
//! loops back to the device probes until a usable (non-blank) label exists.
//!
//! The chain is a state machine over plain byte values: the driver performs
//! the action the current state asks for (run the metadata query, read two
//! fixed header ranges, prompt the user) and feeds the observation back in.

use vstd::prelude::*;

use crate::bytes::{
    before_nul, is_blank, lemma_trim_blankness, prefix_before_nul, trim, trim_bytes,
};

verus! {

/// Byte offset of the two-byte signature inside the header.
pub const SIGNATURE_OFFSET: usize = 32769;

/// Length of the signature field.
pub const SIGNATURE_LEN: usize = 2;

/// Byte offset of the padded volume-label field inside the header.
pub const LABEL_OFFSET: usize = 32808;

/// Length of the padded volume-label field.
pub const LABEL_LEN: usize = 32;

/// The expected marker at the signature offset: the bytes `CD`.
pub open spec fn is_iso_signature(s: Seq<u8>) -> bool {
    s.len() == SIGNATURE_LEN && s[0] == 67 && s[1] == 68
}

/// The label carried by a padded header field: the bytes before the first
/// NUL, trimmed of surrounding whitespace.
pub open spec fn parsed_label(field: Seq<u8>) -> Seq<u8> {
    trim(before_nul(field))
}

/// Parse the two fixed-size header ranges.  A wrong signature yields no
/// label; it is not an error.  With the right signature the result is the
/// padded field cut at its first NUL and trimmed.
pub fn parse_volume_header(sig: &Vec<u8>, field: &Vec<u8>) -> (r: Option<Vec<u8>>)
    ensures
        r is Some <==> is_iso_signature(sig@),
        r matches Some(l) ==> l@ == parsed_label(field@),
{
    if sig.len() == 2 && sig[0] == 67 && sig[1] == 68 {
        let cut = prefix_before_nul(field);
        Some(trim_bytes(&cut))
    } else {
        None
    }
}

/// The signature range of a full byte stream.
pub open spec fn stream_signature(s: Seq<u8>) -> Seq<u8> {
    s.subrange(SIGNATURE_OFFSET as int, (SIGNATURE_OFFSET + SIGNATURE_LEN) as int)
}

/// The label-field range of a full byte stream.
pub open spec fn stream_label_field(s: Seq<u8>) -> Seq<u8> {
    s.subrange(LABEL_OFFSET as int, (LABEL_OFFSET + LABEL_LEN) as int)
}

/// Parse the header out of a whole in-memory byte stream (an image file).
/// A stream too short to hold both ranges yields no label.
pub fn volume_label_from_stream(stream: &Vec<u8>) -> (r: Option<Vec<u8>>)
    ensures
        stream@.len() < LABEL_OFFSET + LABEL_LEN ==> r is None,
        stream@.len() >= LABEL_OFFSET + LABEL_LEN ==> {
            &&& r is Some <==> is_iso_signature(stream_signature(stream@))
            &&& (r matches Some(l) ==> l@ == parsed_label(stream_label_field(stream@)))
        },
{
    if stream.len() < LABEL_OFFSET + LABEL_LEN {
        return None;
    }
    let mut sig: Vec<u8> = Vec::new();
    let mut i: usize = SIGNATURE_OFFSET;
    while i < SIGNATURE_OFFSET + SIGNATURE_LEN
        invariant
            SIGNATURE_OFFSET <= i <= SIGNATURE_OFFSET + SIGNATURE_LEN,
            stream@.len() >= LABEL_OFFSET + LABEL_LEN,
            sig@ =~= stream@.subrange(SIGNATURE_OFFSET as int, i as int),
        decreases SIGNATURE_OFFSET + SIGNATURE_LEN - i,
    {
        sig.push(stream[i]);
        proof {
            assert(sig@ =~= stream@.subrange(SIGNATURE_OFFSET as int, i + 1 as int));
        }
        i += 1;
    }
    let mut field: Vec<u8> = Vec::new();
    let mut j: usize = LABEL_OFFSET;
    while j < LABEL_OFFSET + LABEL_LEN
        invariant
            LABEL_OFFSET <= j <= LABEL_OFFSET + LABEL_LEN,
            stream@.len() >= LABEL_OFFSET + LABEL_LEN,
            field@ =~= stream@.subrange(LABEL_OFFSET as int, j as int),
        decreases LABEL_OFFSET + LABEL_LEN - j,
    {
        field.push(stream[j]);
        proof {
            assert(field@ =~= stream@.subrange(LABEL_OFFSET as int, j + 1 as int));
        }
        j += 1;
    }
    proof {
        assert(sig@ =~= stream_signature(stream@));
        assert(field@ =~= stream_label_field(stream@));
    }
    parse_volume_header(&sig, &field)
}

/// Observations handed back to the resolver by its driver.
#[derive(Debug)]
pub enum LabelEvent {
    /// Outcome of the volume-metadata query: the raw bytes the service
    /// printed, or nothing if the query failed.
    Metadata(Option<Vec<u8>>),
    /// Outcome of the raw header read: the signature range and the label
    /// field range, or nothing if the device could not be read.
    Header(Option<(Vec<u8>, Vec<u8>)>),
    /// A line entered at the interactive prompt.
    Line(Vec<u8>),
}

/// Resolver state.  Each non-final state names the probe the driver should
/// perform next; `Done` carries the resolved label.
#[derive(Debug, PartialEq, Eq)]
pub enum ResolveState {
    /// Ask the platform's volume-metadata service.
    QueryMetadata,
    /// Read the raw header ranges from the device.
    ReadHeader,
    /// Prompt the user for a name.
    Prompt,
    /// A usable label was found.
    Done(Vec<u8>),
}

/// Mathematical model of a resolver state.
pub enum LabelModel {
    /// Model of `ResolveState::QueryMetadata`.
    QueryMetadata,
    /// Model of `ResolveState::ReadHeader`.
    ReadHeader,
    /// Model of `ResolveState::Prompt`.
    Prompt,
    /// Model of `ResolveState::Done`.
    Done(Seq<u8>),
}

impl View for ResolveState {
    type V = LabelModel;

    open spec fn view(&self) -> LabelModel {
        match self {
            ResolveState::QueryMetadata => LabelModel::QueryMetadata,
            ResolveState::ReadHeader => LabelModel::ReadHeader,
            ResolveState::Prompt => LabelModel::Prompt,
            ResolveState::Done(l) => LabelModel::Done(l@),
        }
    }
}

/// The starting state of a resolution run: a non-blank explicit override is
/// returned exactly, without any device interaction; otherwise the chain
/// begins with the metadata query.
pub open spec fn label_start(name: Option<Vec<u8>>) -> LabelModel {
    match name {
        Some(n) => if !is_blank(n@) {
            LabelModel::Done(n@)
        } else {
            LabelModel::QueryMetadata
        },
        None => LabelModel::QueryMetadata,
    }
}

/// One transition of the resolution chain.  A blank outcome falls through to
/// the next strategy; the prompt loops back to the device probes so the user
/// can finish inserting a disc.  An event that does not answer the pending
/// probe changes nothing.
pub open spec fn label_step(m: LabelModel, ev: LabelEvent) -> LabelModel {
    match m {
        LabelModel::QueryMetadata => match ev {
            LabelEvent::Metadata(Some(out)) => if trim(out@).len() > 0 {
                LabelModel::Done(trim(out@))
            } else {
                LabelModel::ReadHeader
            },
            LabelEvent::Metadata(None) => LabelModel::ReadHeader,
            _ => m,
        },
        LabelModel::ReadHeader => match ev {
            LabelEvent::Header(Some(ranges)) => if is_iso_signature(ranges.0@)
                && parsed_label(ranges.1@).len() > 0 {
                LabelModel::Done(parsed_label(ranges.1@))
            } else {
                LabelModel::Prompt
            },
            LabelEvent::Header(None) => LabelModel::Prompt,
            _ => m,
        },
        LabelModel::Prompt => match ev {
            LabelEvent::Line(l) => if trim(l@).len() > 0 {
                LabelModel::Done(trim(l@))
            } else {
                LabelModel::QueryMetadata
            },
            _ => m,
        },
        LabelModel::Done(_) => m,
    }
}

/// A whole resolution run: fold the events into the state, stopping at the
/// first `Done`.
pub open spec fn label_run(m: LabelModel, evs: Seq<LabelEvent>) -> LabelModel
    decreases evs.len(),
{
    if evs.len() == 0 || m is Done {
        m
    } else {
        label_run(label_step(m, evs[0]), evs.drop_first())
    }
}

/// Begin a resolution run.
pub fn resolve_start(name: Option<Vec<u8>>) -> (r: ResolveState)
    ensures
        r@ == label_start(name),
{
    match name {
        Some(n) => {
            if crate::bytes::is_blank_bytes(&n) {
                ResolveState::QueryMetadata
            } else {
                ResolveState::Done(n)
            }
        },
        None => ResolveState::QueryMetadata,
    }
}

/// Apply one observation to the resolver.
pub fn resolve_step(state: ResolveState, ev: &LabelEvent) -> (r: ResolveState)
    ensures
        r@ == label_step(state@, *ev),
{
    match state {
        ResolveState::QueryMetadata => match ev {
            LabelEvent::Metadata(Some(out)) => {
                let t = trim_bytes(out);
                if t.len() > 0 {
                    ResolveState::Done(t)
                } else {
                    ResolveState::ReadHeader
                }
            },
            LabelEvent::Metadata(None) => ResolveState::ReadHeader,
            _ => ResolveState::QueryMetadata,
        },
        ResolveState::ReadHeader => match ev {
            LabelEvent::Header(Some(ranges)) => {
                match parse_volume_header(&ranges.0, &ranges.1) {
                    Some(l) => {
                        if l.len() > 0 {
                            ResolveState::Done(l)
                        } else {
                            ResolveState::Prompt
                        }
                    },
                    None => ResolveState::Prompt,
                }
            },
            LabelEvent::Header(None) => ResolveState::Prompt,
            _ => ResolveState::ReadHeader,
        },
        ResolveState::Prompt => match ev {
            LabelEvent::Line(l) => {
                let t = trim_bytes(l);
                if t.len() > 0 {
                    ResolveState::Done(t)
                } else {
                    ResolveState::QueryMetadata
                }
            },
            _ => ResolveState::Prompt,
        },
        ResolveState::Done(l) => ResolveState::Done(l),
    }
}

/// Folding one more event onto a run is one more step.
pub proof fn lemma_label_run_snoc(m: LabelModel, evs: Seq<LabelEvent>, ev: LabelEvent)
    ensures
        label_run(m, evs.push(ev)) == label_step(label_run(m, evs), ev),
    decreases evs.len(),
{
    if m is Done {
        assert(label_run(m, evs.push(ev)) == m);
        assert(label_run(m, evs) == m);
        assert(label_step(m, ev) == m);
        assert(label_run(m, evs.push(ev)) == label_step(label_run(m, evs), ev));
    } else if evs.len() == 0 {
        assert(evs.push(ev)[0] == ev);
        assert(evs.push(ev).drop_first() =~= Seq::<LabelEvent>::empty());
        assert(label_run(m, evs.push(ev))
            == label_run(label_step(m, ev), evs.push(ev).drop_first()));
        assert(label_run(label_step(m, ev), evs.push(ev).drop_first()) == label_step(m, ev));
        assert(label_run(m, evs) == m);
    } else {
        assert(evs.push(ev)[0] == evs[0]);
        assert(evs.push(ev).drop_first() =~= evs.drop_first().push(ev));
        lemma_label_run_snoc(label_step(m, evs[0]), evs.drop_first(), ev);
        assert(label_run(m, evs.push(ev))
            == label_run(label_step(m, evs[0]), evs.drop_first().push(ev)));
        assert(label_run(m, evs) == label_run(label_step(m, evs[0]), evs.drop_first()));
    }
}

/// Run the whole chain over a recorded series of observations, starting from
/// an optional explicit override.  The result is `Done` with the resolved
/// label if the chain settled within the given events, and the pending state
/// otherwise.
pub fn ensure_vol_label(name: Option<Vec<u8>>, events: &Vec<LabelEvent>) -> (r: ResolveState)
    ensures
        r@ == label_run(label_start(name), events@),
{
    let ghost start = label_start(name);
    let mut state = resolve_start(name);
    let n = events.len();
    let mut i: usize = 0;
    proof {
        assert(events@.subrange(0, 0) =~= Seq::<LabelEvent>::empty());
    }
    while i < n
        invariant
            0 <= i <= n,
            n == events@.len(),
            state@ == label_run(start, events@.subrange(0, i as int)),
        decreases n - i,
    {
        state = resolve_step(state, &events[i]);
        proof {
            assert(events@.subrange(0, i + 1 as int)
                =~= events@.subrange(0, i as int).push(events@[i as int]));
            lemma_label_run_snoc(start, events@.subrange(0, i as int), events@[i as int]);
        }
        i += 1;
    }
    proof {
        assert(events@.subrange(0, n as int) =~= events@);
    }
    state
}

/// The resolved label, if the resolver has settled.
pub fn resolved_label(state: ResolveState) -> (r: Option<Vec<u8>>)
    ensures
        r is Some <==> state@ is Done,
        r matches Some(l) ==> state@ matches LabelModel::Done(s) && l@ == s,
{
    match state {
        ResolveState::Done(l) => Some(l),
        _ => None,
    }
}

/// One step keeps the resolver's invariant: a settled label is never blank.
pub proof fn lemma_resolve_step_never_blank(m: LabelModel, ev: LabelEvent)
    requires
        m matches LabelModel::Done(l) ==> !is_blank(l),
    ensures
        label_step(m, ev) matches LabelModel::Done(l) ==> !is_blank(l),
{
    match m {
        LabelModel::QueryMetadata => {
            if let LabelEvent::Metadata(Some(out)) = ev {
                lemma_trim_blankness(out@);
            }
        },
        LabelModel::ReadHeader => {
            if let LabelEvent::Header(Some(ranges)) = ev {
                lemma_trim_blankness(before_nul(ranges.1@));
            }
        },
        LabelModel::Prompt => {
            if let LabelEvent::Line(l) = ev {
                lemma_trim_blankness(l@);
            }
        },
        LabelModel::Done(_) => {},
    }
}

/// The resolver never terminates with a blank or whitespace-only label: any
/// run that starts from an override or from the probe chain and settles on
/// `Done` holds a non-blank label.
pub proof fn lemma_resolver_never_blank(name: Option<Vec<u8>>, evs: Seq<LabelEvent>)
    ensures
        label_run(label_start(name), evs) matches LabelModel::Done(l) ==> !is_blank(l),
{
    lemma_label_run_keeps_nonblank(label_start(name), evs);
}

/// Auxiliary induction for `lemma_resolver_never_blank`.
proof fn lemma_label_run_keeps_nonblank(m: LabelModel, evs: Seq<LabelEvent>)
    requires
        m matches LabelModel::Done(l) ==> !is_blank(l),
    ensures
        label_run(m, evs) matches LabelModel::Done(l) ==> !is_blank(l),
    decreases evs.len(),
{
    if evs.len() > 0 && !(m is Done) {
        lemma_resolve_step_never_blank(m, evs[0]);
        lemma_label_run_keeps_nonblank(label_step(m, evs[0]), evs.drop_first());
    }
}

/// A non-blank explicit override is returned exactly, and the run performs
/// no device interaction at all: the start state is already `Done`.
pub proof fn lemma_override_returned_exactly(name: Vec<u8>, evs: Seq<LabelEvent>)
    requires
        !is_blank(name@),
    ensures
        label_start(Some(name)) == LabelModel::Done(name@),
        label_run(label_start(Some(name)), evs) == LabelModel::Done(name@),
{
}

} // verus!
