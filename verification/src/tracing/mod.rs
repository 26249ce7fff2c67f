//! Causal tracing of effects: trace and span identifiers, levels, trace
//! contexts and their propagation, sampling and baggage, trace events, the
//! events a span records, and how collectors keep and filter them.
//!
//! Fresh identifiers come from a process-wide counter that the caller owns;
//! the types here take them as values.

pub mod context;
pub mod event;
pub mod handler;
pub mod collector;

pub use context::{
    ContextusStack, ContextusVestigium, Impedimenta, Samplator, SamplatorNunquam,
    SamplatorSemper, sampled_under, splitmix64_mix,
};
pub use event::{Attributum, AttributumValue, EventusForma, EventusId, EventusKind, EventusVestigium};
pub use handler::{ConfigVestigium, OrigoSpatii};
pub use collector::{ArchivumEventuum, CollectorNullus, FiltrumEventuum};

use vstd::prelude::*;

use crate::numerus::{hex16, hex16_digits};

verus! {

/// Identifier of a trace.
#[derive(Debug, Clone, Copy, PartialEq, Eq, Hash, Structural)]
pub struct VestigiumId(u64);

impl View for VestigiumId {
    type V = u64;

    /// The raw value.
    closed spec fn view(&self) -> u64 {
        self.0
    }
}

impl VestigiumId {
    /// The trace identifier with raw value `id`.
    pub fn new(id: u64) -> (r: Self)
        ensures
            r@ == id,
    {
        VestigiumId(id)
    }

    /// The raw value.
    pub fn value(&self) -> (r: u64)
        ensures
            r == self@,
    {
        self.0
    }

    /// The displayed form: 16 lower-case hexadecimal digits.
    pub fn to_string(&self) -> (r: String)
        ensures
            r@ == hex16_digits(self@),
    {
        hex16(self.0)
    }
}

/// Identifier of a span within a trace.
#[derive(Debug, Clone, Copy, PartialEq, Eq, Hash, Structural)]
pub struct SpatiumId(u64);

impl View for SpatiumId {
    type V = u64;

    /// The raw value.
    closed spec fn view(&self) -> u64 {
        self.0
    }
}

impl SpatiumId {
    /// The span identifier with raw value `id`.
    pub fn new(id: u64) -> (r: Self)
        ensures
            r@ == id,
    {
        SpatiumId(id)
    }

    /// The raw value.
    pub fn value(&self) -> (r: u64)
        ensures
            r == self@,
    {
        self.0
    }

    /// The displayed form: 16 lower-case hexadecimal digits.
    pub fn to_string(&self) -> (r: String)
        ensures
            r@ == hex16_digits(self@),
    {
        hex16(self.0)
    }
}

/// Severity level of trace events, from the most detailed to the most
/// severe.
#[derive(Debug, Clone, Copy, PartialEq, Eq, PartialOrd, Ord, Hash, Structural)]
pub enum Gradus {
    /// Detailed trace information.
    Vestigium,
    /// Debug information.
    Debug,
    /// Informational message.
    Info,
    /// Warning.
    Monitum,
    /// Error.
    Error,
}

/// The name of a level.
pub open spec fn gradus_name(g: Gradus) -> Seq<char> {
    match g {
        Gradus::Vestigium => "TRACE"@,
        Gradus::Debug => "DEBUG"@,
        Gradus::Info => "INFO"@,
        Gradus::Monitum => "WARN"@,
        Gradus::Error => "ERROR"@,
    }
}

/// The position of a level in the order of severity, from 0 for the most
/// detailed.
pub open spec fn gradus_rank(g: Gradus) -> int {
    match g {
        Gradus::Vestigium => 0,
        Gradus::Debug => 1,
        Gradus::Info => 2,
        Gradus::Monitum => 3,
        Gradus::Error => 4,
    }
}

impl Gradus {
    /// The position of the level in the order of severity, from 0 for the
    /// most detailed; levels compare as their positions do.
    pub fn rank(&self) -> (r: u8)
        ensures
            r == gradus_rank(*self),
    {
        match self {
            Gradus::Vestigium => 0,
            Gradus::Debug => 1,
            Gradus::Info => 2,
            Gradus::Monitum => 3,
            Gradus::Error => 4,
        }
    }

    /// The level name.
    pub fn name(&self) -> (r: &'static str)
        ensures
            r@ == gradus_name(*self),
    {
        match self {
            Gradus::Vestigium => "TRACE",
            Gradus::Debug => "DEBUG",
            Gradus::Info => "INFO",
            Gradus::Monitum => "WARN",
            Gradus::Error => "ERROR",
        }
    }
}

impl Default for Gradus {
    /// Informational.
    fn default() -> (r: Self)
        ensures
            r == Gradus::Info,
    {
        Gradus::Info
    }
}

} // verus!
