//! Verified core of a removable-media backup tool.
//!
//! The crate models the device lifecycle of a ripping run as pure data and
//! state machines: a bounded readiness poller, a multi-strategy volume-label
//! resolver (metadata query, raw header parse, interactive prompt), the
//! per-medium dump strategies, and the top-level orchestrator.  All hardware
//! access, subprocess invocation and terminal interaction happen outside the
//! crate; a driver performs each requested action and feeds the observed
//! outcome back into the machines as an event.

pub mod bytes;
pub mod cause;
pub mod device;
pub mod keyprompt;
pub mod label;
pub mod orchestrator;
pub mod plan;
pub mod poller;
pub mod strategy;
pub mod validators;
