//! Interactive installation-key capture.
//!
//! The user is asked for a key, then asked to confirm it; yes/no answers are
//! compared case-insensitively.  A declined confirmation starts over.  A
//! confirmed non-empty key is handed to the driver to be recorded; a
//! confirmed empty answer means the medium has no key.

use vstd::prelude::*;

use crate::bytes::trim;
use crate::bytes::trim_bytes;

verus! {

/// Lower-case an ASCII byte.
pub open spec fn ascii_lower(b: u8) -> u8 {
    if 65 <= b <= 90 {
        (b + 32) as u8
    } else {
        b
    }
}

/// A line that answers yes: exactly one byte, `y` in either case.
pub open spec fn is_yes(l: Seq<u8>) -> bool {
    l.len() == 1 && ascii_lower(l[0]) == 121
}

/// Observations handed to the key-capture machine by its driver.
#[derive(Debug)]
pub enum KeyEvent {
    /// A line entered at the pending prompt.
    Line(Vec<u8>),
    /// The driver recorded the confirmed key.
    Recorded,
}

/// What the key-capture machine asks its driver to do next.
#[derive(Debug, Clone, Copy, PartialEq, Eq, Structural)]
pub enum KeyAction {
    /// Prompt for the key itself.
    PromptKey,
    /// Ask to confirm the entered key, or to confirm that there is none.
    ConfirmKey {
        /// Whether the candidate being confirmed is empty.
        empty: bool,
    },
    /// Store the confirmed key.
    StoreKey,
}

/// Progress of the key capture.
#[derive(Debug, PartialEq, Eq)]
pub enum KeyState {
    /// The key prompt is pending.
    AskKey,
    /// The trimmed candidate awaits confirmation.
    Confirm {
        /// The candidate, trimmed; possibly empty.
        key: Vec<u8>,
    },
    /// The confirmed, non-empty key awaits recording.
    Record {
        /// The confirmed key.
        key: Vec<u8>,
    },
    /// The capture finished.
    Done,
}

/// Mathematical model of a `KeyState`.
pub enum KeyModel {
    /// Model of `KeyState::AskKey`.
    AskKey,
    /// Model of `KeyState::Confirm`.
    Confirm {
        /// The candidate, trimmed; possibly empty.
        key: Seq<u8>,
    },
    /// Model of `KeyState::Record`.
    Record {
        /// The confirmed key.
        key: Seq<u8>,
    },
    /// Model of `KeyState::Done`.
    Done,
}

impl View for KeyState {
    type V = KeyModel;

    open spec fn view(&self) -> KeyModel {
        match self {
            KeyState::AskKey => KeyModel::AskKey,
            KeyState::Confirm { key } => KeyModel::Confirm { key: key@ },
            KeyState::Record { key } => KeyModel::Record { key: key@ },
            KeyState::Done => KeyModel::Done,
        }
    }
}

/// One transition of the key capture.  An event that does not answer the
/// pending prompt changes nothing.
pub open spec fn key_step(m: KeyModel, ev: KeyEvent) -> KeyModel {
    match m {
        KeyModel::AskKey => match ev {
            KeyEvent::Line(l) => KeyModel::Confirm { key: trim(l@) },
            _ => m,
        },
        KeyModel::Confirm { key } => match ev {
            KeyEvent::Line(l) => if !is_yes(l@) {
                KeyModel::AskKey
            } else if key.len() > 0 {
                KeyModel::Record { key }
            } else {
                KeyModel::Done
            },
            _ => m,
        },
        KeyModel::Record { .. } => match ev {
            KeyEvent::Recorded => KeyModel::Done,
            _ => m,
        },
        KeyModel::Done => m,
    }
}

/// The action pending in a key-capture state.
pub open spec fn key_action_of(m: KeyModel) -> Option<KeyAction> {
    match m {
        KeyModel::AskKey => Some(KeyAction::PromptKey),
        KeyModel::Confirm { key } => Some(KeyAction::ConfirmKey { empty: key.len() == 0 }),
        KeyModel::Record { .. } => Some(KeyAction::StoreKey),
        KeyModel::Done => None,
    }
}

/// A whole capture: fold the events into the machine, stopping at `Done`.
pub open spec fn key_run(m: KeyModel, evs: Seq<KeyEvent>) -> KeyModel
    decreases evs.len(),
{
    if evs.len() == 0 || m is Done {
        m
    } else {
        key_run(key_step(m, evs[0]), evs.drop_first())
    }
}

/// Whether a byte answers yes, decided at run time.
fn byte_is_yes(l: &Vec<u8>) -> (r: bool)
    ensures
        r == is_yes(l@),
{
    l.len() == 1 && {
        let b = l[0];
        b == 121 || b == 89
    }
}

/// The action the driver should perform next, if any.
pub fn key_action(state: &KeyState) -> (r: Option<KeyAction>)
    ensures
        r == key_action_of(state@),
{
    match state {
        KeyState::AskKey => Some(KeyAction::PromptKey),
        KeyState::Confirm { key } => Some(KeyAction::ConfirmKey { empty: key.len() == 0 }),
        KeyState::Record { .. } => Some(KeyAction::StoreKey),
        KeyState::Done => None,
    }
}

/// Apply one observation to the key capture.
pub fn key_advance(state: KeyState, ev: &KeyEvent) -> (r: KeyState)
    ensures
        r@ == key_step(state@, *ev),
{
    match state {
        KeyState::AskKey => match ev {
            KeyEvent::Line(l) => KeyState::Confirm { key: trim_bytes(l) },
            _ => KeyState::AskKey,
        },
        KeyState::Confirm { key } => match ev {
            KeyEvent::Line(l) => {
                if !byte_is_yes(l) {
                    KeyState::AskKey
                } else if key.len() > 0 {
                    KeyState::Record { key }
                } else {
                    KeyState::Done
                }
            },
            _ => KeyState::Confirm { key },
        },
        KeyState::Record { key } => match ev {
            KeyEvent::Recorded => KeyState::Done,
            _ => KeyState::Record { key },
        },
        KeyState::Done => KeyState::Done,
    }
}

/// Folding one more event onto a capture is one more step.
proof fn lemma_key_run_snoc(m: KeyModel, evs: Seq<KeyEvent>, ev: KeyEvent)
    ensures
        key_run(m, evs.push(ev)) == key_step(key_run(m, evs), ev),
    decreases evs.len(),
{
    if m is Done {
        assert(key_run(m, evs.push(ev)) == m);
        assert(key_run(m, evs) == m);
        assert(key_step(m, ev) == m);
    } else if evs.len() == 0 {
        assert(evs.push(ev)[0] == ev);
        assert(evs.push(ev).drop_first() =~= Seq::<KeyEvent>::empty());
        assert(key_run(m, evs.push(ev))
            == key_run(key_step(m, ev), evs.push(ev).drop_first()));
        assert(key_run(key_step(m, ev), evs.push(ev).drop_first()) == key_step(m, ev));
        assert(key_run(m, evs) == m);
    } else {
        assert(evs.push(ev)[0] == evs[0]);
        assert(evs.push(ev).drop_first() =~= evs.drop_first().push(ev));
        lemma_key_run_snoc(key_step(m, evs[0]), evs.drop_first(), ev);
        assert(key_run(m, evs.push(ev))
            == key_run(key_step(m, evs[0]), evs.drop_first().push(ev)));
        assert(key_run(m, evs) == key_run(key_step(m, evs[0]), evs.drop_first()));
    }
}

/// Run the key capture over a recorded series of observations, beginning at
/// the key prompt.
pub fn get_cd_key(events: &Vec<KeyEvent>) -> (r: KeyState)
    ensures
        r@ == key_run(KeyModel::AskKey, events@),
{
    let mut state = KeyState::AskKey;
    let n = events.len();
    let mut i: usize = 0;
    proof {
        assert(events@.subrange(0, 0) =~= Seq::<KeyEvent>::empty());
    }
    while i < n
        invariant
            0 <= i <= n,
            n == events@.len(),
            state@ == key_run(KeyModel::AskKey, events@.subrange(0, i as int)),
        decreases n - i,
    {
        state = key_advance(state, &events[i]);
        proof {
            assert(events@.subrange(0, i + 1 as int)
                =~= events@.subrange(0, i as int).push(events@[i as int]));
            lemma_key_run_snoc(KeyModel::AskKey, events@.subrange(0, i as int),
                events@[i as int]);
        }
        i += 1;
    }
    proof {
        assert(events@.subrange(0, n as int) =~= events@);
    }
    state
}

} // verus!
