//! Event identifiers and kinds.

use vstd::prelude::*;

use super::{Gradus, SpatiumId, VestigiumId};

verus! {

/// Identifier of a trace event.
#[derive(Debug, Clone, Copy, PartialEq, Eq, Hash, Structural)]
pub struct EventusId(u64);

impl View for EventusId {
    type V = u64;

    /// The raw value.
    closed spec fn view(&self) -> u64 {
        self.0
    }
}

impl EventusId {
    /// The event identifier with raw value `id`.
    pub fn new(id: u64) -> (r: Self)
        ensures
            r@ == id,
    {
        EventusId(id)
    }

    /// The raw value.
    pub fn value(&self) -> (r: u64)
        ensures
            r == self@,
    {
        self.0
    }
}

/// The kind of a trace event.
#[derive(Debug, Clone, Copy, PartialEq, Eq, Structural)]
pub enum EventusKind {
    /// Start of an operation.
    OperationStart,
    /// End of an operation (success).
    OperationEnd,
    /// Operation error.
    OperationError,
    /// Effect performed.
    EffectPerform,
    /// Effect handled.
    EffectHandle,
    /// Effect resumed.
    EffectResume,
    /// Fiber spawned.
    FibraSpawn,
    /// Fiber completed.
    FibraComplete,
    /// Fiber cancelled.
    FibraCancel,
    /// Custom event.
    Custom,
}

/// The name of an event kind.
pub open spec fn eventus_kind_name(k: EventusKind) -> Seq<char> {
    match k {
        EventusKind::OperationStart => "operation.start"@,
        EventusKind::OperationEnd => "operation.end"@,
        EventusKind::OperationError => "operation.error"@,
        EventusKind::EffectPerform => "effect.perform"@,
        EventusKind::EffectHandle => "effect.handle"@,
        EventusKind::EffectResume => "effect.resume"@,
        EventusKind::FibraSpawn => "fibra.spawn"@,
        EventusKind::FibraComplete => "fibra.complete"@,
        EventusKind::FibraCancel => "fibra.cancel"@,
        EventusKind::Custom => "custom"@,
    }
}

impl EventusKind {
    /// The kind name.
    pub fn name(&self) -> (r: &'static str)
        ensures
            r@ == eventus_kind_name(*self),
    {
        match self {
            EventusKind::OperationStart => "operation.start",
            EventusKind::OperationEnd => "operation.end",
            EventusKind::OperationError => "operation.error",
            EventusKind::EffectPerform => "effect.perform",
            EventusKind::EffectHandle => "effect.handle",
            EventusKind::EffectResume => "effect.resume",
            EventusKind::FibraSpawn => "fibra.spawn",
            EventusKind::FibraComplete => "fibra.complete",
            EventusKind::FibraCancel => "fibra.cancel",
            EventusKind::Custom => "custom",
        }
    }

    /// Whether this kind starts something: an operation or a fiber.
    pub fn is_start(&self) -> (r: bool)
        ensures
            r == (*self is OperationStart || *self is FibraSpawn),
    {
        match self {
            EventusKind::OperationStart | EventusKind::FibraSpawn => true,
            _ => false,
        }
    }

    /// Whether this kind ends something: an operation or a fiber.
    pub fn is_end(&self) -> (r: bool)
        ensures
            r == (*self is OperationEnd || *self is FibraComplete),
    {
        match self {
            EventusKind::OperationEnd | EventusKind::FibraComplete => true,
            _ => false,
        }
    }

    /// Whether this kind is an operation error.
    pub fn is_error(&self) -> (r: bool)
        ensures
            r == (*self is OperationError),
    {
        match self {
            EventusKind::OperationError => true,
            _ => false,
        }
    }
}

/// The value of an event attribute.
#[derive(Debug, Clone, PartialEq)]
pub enum AttributumValue {
    /// Text.
    String(String),
    /// A signed integer.
    Int(i64),
    /// An unsigned integer.
    UInt(u64),
    /// A floating-point number, held as its IEEE 754 bit pattern.
    Float(u64),
    /// A boolean.
    Bool(bool),
}

/// A key-value attribute attached to an event.
#[derive(Debug, Clone, PartialEq)]
pub struct Attributum {
    /// The key.
    pub key: String,
    /// The value.
    pub value: AttributumValue,
}

/// What an event records, field by field.
pub struct EventusForma {
    /// The event's identifier.
    pub id: EventusId,
    /// The trace it belongs to.
    pub trace_id: VestigiumId,
    /// The span's parent, if any.
    pub parent_span_id: Option<SpatiumId>,
    /// The span it belongs to.
    pub span_id: SpatiumId,
    /// The effect's identifier.
    pub effect_id: u64,
    /// The effect's name.
    pub effect_name: Seq<char>,
    /// The operation.
    pub operation: Seq<char>,
    /// The time of the event, in nanoseconds.
    pub timestamp_ns: u64,
    /// How long the operation took, in nanoseconds, if known.
    pub duration_ns: Option<u64>,
    /// The severity level.
    pub level: Gradus,
    /// The kind of event.
    pub kind: EventusKind,
    /// The attributes, in the order they were added.
    pub attributes: Seq<Attributum>,
}

/// A trace event: one thing that happened within a span.
#[derive(Debug, Clone)]
pub struct EventusVestigium {
    id: EventusId,
    trace_id: VestigiumId,
    parent_span_id: Option<SpatiumId>,
    span_id: SpatiumId,
    effect_id: u64,
    effect_name: String,
    operation: String,
    timestamp_ns: u64,
    duration_ns: Option<u64>,
    level: Gradus,
    kind: EventusKind,
    attributes: Vec<Attributum>,
}

impl View for EventusVestigium {
    type V = EventusForma;

    closed spec fn view(&self) -> EventusForma {
        EventusForma {
            id: self.id,
            trace_id: self.trace_id,
            parent_span_id: self.parent_span_id,
            span_id: self.span_id,
            effect_id: self.effect_id,
            effect_name: self.effect_name@,
            operation: self.operation@,
            timestamp_ns: self.timestamp_ns,
            duration_ns: self.duration_ns,
            level: self.level,
            kind: self.kind,
            attributes: self.attributes@,
        }
    }
}

impl EventusVestigium {
    /// The start of operation `operation` of effect `effect_name`
    /// (`effect_id`), in span `span_id` of trace `trace_id`, as event `id`:
    /// no parent, timestamp 0, no duration, informational, no attributes.
    pub fn new(
        id: EventusId,
        trace_id: VestigiumId,
        span_id: SpatiumId,
        effect_id: u64,
        effect_name: &str,
        operation: &str,
    ) -> (r: Self)
        ensures
            r@ == (EventusForma {
                id,
                trace_id,
                parent_span_id: None,
                span_id,
                effect_id,
                effect_name: effect_name@,
                operation: operation@,
                timestamp_ns: 0,
                duration_ns: None,
                level: Gradus::Info,
                kind: EventusKind::OperationStart,
                attributes: Seq::empty(),
            }),
    {
        EventusVestigium {
            id,
            trace_id,
            parent_span_id: None,
            span_id,
            effect_id,
            effect_name: effect_name.to_string(),
            operation: operation.to_string(),
            timestamp_ns: 0,
            duration_ns: None,
            level: Gradus::Info,
            kind: EventusKind::OperationStart,
            attributes: Vec::new(),
        }
    }

    /// The same event with parent span `parent`.
    pub fn with_parent(self, parent: SpatiumId) -> (r: Self)
        ensures
            r@ == (EventusForma { parent_span_id: Some(parent), ..self@ }),
    {
        EventusVestigium { parent_span_id: Some(parent), ..self }
    }

    /// The same event at time `timestamp_ns`.
    pub fn with_timestamp(self, timestamp_ns: u64) -> (r: Self)
        ensures
            r@ == (EventusForma { timestamp_ns, ..self@ }),
    {
        EventusVestigium { timestamp_ns, ..self }
    }

    /// The same event with duration `duration_ns`.
    pub fn with_duration(self, duration_ns: u64) -> (r: Self)
        ensures
            r@ == (EventusForma { duration_ns: Some(duration_ns), ..self@ }),
    {
        EventusVestigium { duration_ns: Some(duration_ns), ..self }
    }

    /// The same event at level `level`.
    pub fn with_level(self, level: Gradus) -> (r: Self)
        ensures
            r@ == (EventusForma { level, ..self@ }),
    {
        EventusVestigium { level, ..self }
    }

    /// The same event of kind `kind`.
    pub fn with_kind(self, kind: EventusKind) -> (r: Self)
        ensures
            r@ == (EventusForma { kind, ..self@ }),
    {
        EventusVestigium { kind, ..self }
    }

    /// The same event with the attribute `key` = `value` added last.
    pub fn with_attribute(self, key: &str, value: AttributumValue) -> (r: Self)
        ensures
            r@.attributes.len() == self@.attributes.len() + 1,
            r@.attributes.take(self@.attributes.len() as int) == self@.attributes,
            r@.attributes.last().key@ == key@,
            r@.attributes.last().value == value,
            r@ == (EventusForma { attributes: r@.attributes, ..self@ }),
    {
        let mut attributes = self.attributes;
        attributes.push(Attributum { key: key.to_string(), value });
        EventusVestigium { attributes, ..self }
    }
}

impl EventusVestigium {
    /// The event's identifier.
    pub fn id(&self) -> (r: EventusId)
        ensures
            r == self@.id,
    {
        self.id
    }

    /// The trace the event belongs to.
    pub fn trace_id(&self) -> (r: VestigiumId)
        ensures
            r == self@.trace_id,
    {
        self.trace_id
    }

    /// The span's parent, if any.
    pub fn parent_span_id(&self) -> (r: Option<SpatiumId>)
        ensures
            r == self@.parent_span_id,
    {
        self.parent_span_id
    }

    /// The span the event belongs to.
    pub fn span_id(&self) -> (r: SpatiumId)
        ensures
            r == self@.span_id,
    {
        self.span_id
    }

    /// The effect's identifier.
    pub fn effect_id(&self) -> (r: u64)
        ensures
            r == self@.effect_id,
    {
        self.effect_id
    }

    /// The effect's name.
    pub fn effect_name(&self) -> (r: &str)
        ensures
            r@ == self@.effect_name,
    {
        self.effect_name.as_str()
    }

    /// The operation.
    pub fn operation(&self) -> (r: &str)
        ensures
            r@ == self@.operation,
    {
        self.operation.as_str()
    }

    /// The time of the event, in nanoseconds.
    pub fn timestamp_ns(&self) -> (r: u64)
        ensures
            r == self@.timestamp_ns,
    {
        self.timestamp_ns
    }

    /// How long the operation took, in nanoseconds, if known.
    pub fn duration_ns(&self) -> (r: Option<u64>)
        ensures
            r == self@.duration_ns,
    {
        self.duration_ns
    }

    /// The severity level.
    pub fn level(&self) -> (r: Gradus)
        ensures
            r == self@.level,
    {
        self.level
    }

    /// The kind of event.
    pub fn kind(&self) -> (r: EventusKind)
        ensures
            r == self@.kind,
    {
        self.kind
    }

    /// The attributes, in the order they were added.
    pub fn attributes(&self) -> (r: &[Attributum])
        ensures
            r@ == self@.attributes,
    {
        self.attributes.as_slice()
    }
}

impl From<String> for AttributumValue {
    /// Text.
    fn from(s: String) -> (r: Self) {
        AttributumValue::String(s)
    }
}

impl vstd::std_specs::convert::FromSpecImpl<String> for AttributumValue {
    open spec fn obeys_from_spec() -> bool {
        true
    }

    open spec fn from_spec(s: String) -> Self {
        AttributumValue::String(s)
    }
}

impl From<i64> for AttributumValue {
    /// A signed integer.
    fn from(v: i64) -> (r: Self) {
        AttributumValue::Int(v)
    }
}

impl vstd::std_specs::convert::FromSpecImpl<i64> for AttributumValue {
    open spec fn obeys_from_spec() -> bool {
        true
    }

    open spec fn from_spec(v: i64) -> Self {
        AttributumValue::Int(v)
    }
}

impl From<i32> for AttributumValue {
    /// A signed integer.
    fn from(v: i32) -> (r: Self) {
        AttributumValue::Int(v as i64)
    }
}

impl vstd::std_specs::convert::FromSpecImpl<i32> for AttributumValue {
    open spec fn obeys_from_spec() -> bool {
        true
    }

    open spec fn from_spec(v: i32) -> Self {
        AttributumValue::Int(v as i64)
    }
}

impl From<u64> for AttributumValue {
    /// An unsigned integer.
    fn from(v: u64) -> (r: Self) {
        AttributumValue::UInt(v)
    }
}

impl vstd::std_specs::convert::FromSpecImpl<u64> for AttributumValue {
    open spec fn obeys_from_spec() -> bool {
        true
    }

    open spec fn from_spec(v: u64) -> Self {
        AttributumValue::UInt(v)
    }
}

impl From<u32> for AttributumValue {
    /// An unsigned integer.
    fn from(v: u32) -> (r: Self) {
        AttributumValue::UInt(v as u64)
    }
}

impl vstd::std_specs::convert::FromSpecImpl<u32> for AttributumValue {
    open spec fn obeys_from_spec() -> bool {
        true
    }

    open spec fn from_spec(v: u32) -> Self {
        AttributumValue::UInt(v as u64)
    }
}

impl From<bool> for AttributumValue {
    /// A boolean.
    fn from(v: bool) -> (r: Self) {
        AttributumValue::Bool(v)
    }
}

impl vstd::std_specs::convert::FromSpecImpl<bool> for AttributumValue {
    open spec fn obeys_from_spec() -> bool {
        true
    }

    open spec fn from_spec(v: bool) -> Self {
        AttributumValue::Bool(v)
    }
}

} // verus!
