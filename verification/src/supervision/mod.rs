//! Supervision trees: structured fault tolerance in the manner of Erlang.
//!
//! This module models supervision *decisions*: a tree describes its
//! children and a restart strategy; the caller reports failures and applies
//! the restart actions that the tree returns.

pub mod strategia;
pub mod infans;
pub mod arbor;

pub use strategia::{
    IntensitasRestitutio, ModusRestitutio, OrdoTerminatio, RestartDecision,
    StrategiaSupervisionis,
};
pub use infans::{GenusInfantis, InfansCurrens, InfansSpec, ManubriumInfantis};
pub use arbor::{Arbor, ArborBuilder, ArborId, ArborSummary, StatusArbor};

use vstd::prelude::*;

use crate::numerus::decimal;

verus! {

/// Error type for supervision operations.
#[derive(Debug, Clone)]
pub enum SupervisioError {
    /// Maximum restart intensity exceeded.
    IntensitasExcedit {
        /// ID of the child whose restart tripped the limit.
        child_id: String,
        /// Number of restarts recorded for that child so far.
        restarts: u32,
        /// Length of the sliding intensity window, in seconds.
        window_secs: u64,
    },
    /// Child failed to start.
    InitiumDefectum {
        /// ID of the child that failed to start.
        child_id: String,
        /// Why startup failed.
        reason: String,
    },
    /// Child terminated abnormally.
    TerminatioAbnormis {
        /// ID of the child that terminated.
        child_id: String,
        /// Description of the abnormal termination.
        reason: String,
    },
    /// Supervisor was stopped.
    SupervisioTerminata,
    /// Any other supervision error.
    Alius(String),
}

/// The displayed form of a supervision error.
pub open spec fn supervisio_error_text(e: SupervisioError) -> Seq<char> {
    match e {
        SupervisioError::IntensitasExcedit { child_id, restarts, window_secs } =>
            "restart intensity exceeded for '"@ + child_id@ + "': "@
                + crate::numerus::decimal_digits(restarts as nat) + " restarts in "@
                + crate::numerus::decimal_digits(window_secs as nat) + "s"@,
        SupervisioError::InitiumDefectum { child_id, reason } =>
            "child '"@ + child_id@ + "' failed to start: "@ + reason@,
        SupervisioError::TerminatioAbnormis { child_id, reason } =>
            "child '"@ + child_id@ + "' terminated abnormally: "@ + reason@,
        SupervisioError::SupervisioTerminata => "supervisor was terminated"@,
        SupervisioError::Alius(msg) => "supervision error: "@ + msg@,
    }
}

impl SupervisioError {
    /// The displayed form of this error.
    pub fn to_string(&self) -> (r: String)
        ensures
            r@ == supervisio_error_text(*self),
    {
        match self {
            SupervisioError::IntensitasExcedit { child_id, restarts, window_secs } => {
                let mut s = String::from_str("restart intensity exceeded for '");
                s.append(child_id.as_str());
                s.append("': ");
                let n = decimal(*restarts as u64);
                s.append(n.as_str());
                s.append(" restarts in ");
                let w = decimal(*window_secs);
                s.append(w.as_str());
                s.append("s");
                s
            },
            SupervisioError::InitiumDefectum { child_id, reason } => {
                let mut s = String::from_str("child '");
                s.append(child_id.as_str());
                s.append("' failed to start: ");
                s.append(reason.as_str());
                s
            },
            SupervisioError::TerminatioAbnormis { child_id, reason } => {
                let mut s = String::from_str("child '");
                s.append(child_id.as_str());
                s.append("' terminated abnormally: ");
                s.append(reason.as_str());
                s
            },
            SupervisioError::SupervisioTerminata => String::from_str("supervisor was terminated"),
            SupervisioError::Alius(msg) => {
                let mut s = String::from_str("supervision error: ");
                s.append(msg.as_str());
                s
            },
        }
    }
}

/// Result type for supervision operations.
pub type SupervisioResult<T> = Result<T, SupervisioError>;

/// Action to take after a child failure.
#[derive(Debug, Clone, Copy, PartialEq, Eq, Structural)]
pub enum ActioRestitutio {
    /// Restart the failed child(ren).
    Restituere,
    /// Stop the supervisor and escalate to the parent.
    Escalare,
    /// Stop the supervisor without escalation.
    Terminare,
    /// Ignore the failure and continue.
    Ignorare,
}

/// Status of a supervised child.
#[derive(Debug, Clone, Copy, PartialEq, Eq, Structural)]
pub enum StatusInfantis {
    /// Child is starting.
    Incipiens,
    /// Child is running.
    Currens,
    /// Child is restarting.
    Restituens,
    /// Child has stopped normally.
    Terminatus,
    /// Child has failed.
    Defectus,
}

} // verus!
