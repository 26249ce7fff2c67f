//! Tracing configuration, and the events a traced span records.

use vstd::prelude::*;

use super::event::{AttributumValue, EventusForma, EventusId, EventusKind, EventusVestigium};
use super::{Gradus, SpatiumId, VestigiumId};

verus! {

/// What a tracing handler records.
#[derive(Debug, Clone, Copy, PartialEq, Eq, Structural)]
pub struct ConfigVestigium {
    /// Whether operation starts are traced.
    pub trace_starts: bool,
    /// Whether operation ends are traced.
    pub trace_ends: bool,
    /// Whether errors are traced.
    pub trace_errors: bool,
    /// Whether operation arguments are included (no recorder reads it yet).
    pub include_args: bool,
    /// Whether operation results are included (no recorder reads it yet).
    pub include_results: bool,
    /// Default trace level.
    pub default_level: Gradus,
}

impl ConfigVestigium {
    /// Only errors, at level `Error`.
    pub fn minimal() -> (r: Self)
        ensures
            r == (ConfigVestigium {
                trace_starts: false,
                trace_ends: false,
                trace_errors: true,
                include_args: false,
                include_results: false,
                default_level: Gradus::Error,
            }),
    {
        ConfigVestigium {
            trace_starts: false,
            trace_ends: false,
            trace_errors: true,
            include_args: false,
            include_results: false,
            default_level: Gradus::Error,
        }
    }

    /// Starts, ends and errors, at level `Info`.
    pub fn standard() -> (r: Self)
        ensures
            r == (ConfigVestigium {
                trace_starts: true,
                trace_ends: true,
                trace_errors: true,
                include_args: false,
                include_results: false,
                default_level: Gradus::Info,
            }),
    {
        ConfigVestigium {
            trace_starts: true,
            trace_ends: true,
            trace_errors: true,
            include_args: false,
            include_results: false,
            default_level: Gradus::Info,
        }
    }

    /// Everything, with arguments and results, at level `Debug`.
    pub fn verbose() -> (r: Self)
        ensures
            r == (ConfigVestigium {
                trace_starts: true,
                trace_ends: true,
                trace_errors: true,
                include_args: true,
                include_results: true,
                default_level: Gradus::Debug,
            }),
    {
        ConfigVestigium {
            trace_starts: true,
            trace_ends: true,
            trace_errors: true,
            include_args: true,
            include_results: true,
            default_level: Gradus::Debug,
        }
    }

    /// Everything, with arguments and results, at the most detailed level.
    pub fn full() -> (r: Self)
        ensures
            r == (ConfigVestigium {
                trace_starts: true,
                trace_ends: true,
                trace_errors: true,
                include_args: true,
                include_results: true,
                default_level: Gradus::Vestigium,
            }),
    {
        ConfigVestigium {
            trace_starts: true,
            trace_ends: true,
            trace_errors: true,
            include_args: true,
            include_results: true,
            default_level: Gradus::Vestigium,
        }
    }
}

impl Default for ConfigVestigium {
    /// The standard configuration.
    fn default() -> (r: Self)
        ensures
            r == ConfigVestigium::standard_spec(),
    {
        Self::standard()
    }
}

impl ConfigVestigium {
    /// The standard configuration, as a value.
    pub open spec fn standard_spec() -> Self {
        ConfigVestigium {
            trace_starts: true,
            trace_ends: true,
            trace_errors: true,
            include_args: false,
            include_results: false,
            default_level: Gradus::Info,
        }
    }
}

/// Where the events of a span come from: its trace, the span and its
/// parent, and the effect traced.
#[derive(Debug, Clone, Copy, PartialEq, Eq)]
pub struct OrigoSpatii {
    /// The trace.
    pub trace_id: VestigiumId,
    /// The span.
    pub span_id: SpatiumId,
    /// The span's parent, if any.
    pub parent_span_id: Option<SpatiumId>,
    /// The effect's identifier.
    pub effect_id: u64,
    /// The effect's name.
    pub effect_name: &'static str,
}

/// The event `id` of operation `operation` from `o`, before its kind,
/// level, times and attributes are set.
pub open spec fn eventus_origo(o: OrigoSpatii, id: EventusId, operation: Seq<char>) -> EventusForma {
    EventusForma {
        id,
        trace_id: o.trace_id,
        parent_span_id: o.parent_span_id,
        span_id: o.span_id,
        effect_id: o.effect_id,
        effect_name: o.effect_name@,
        operation,
        timestamp_ns: 0,
        duration_ns: None,
        level: Gradus::Info,
        kind: EventusKind::OperationStart,
        attributes: Seq::empty(),
    }
}

/// Whether `attributes` is the single attribute `error` = `text`.
pub open spec fn error_attributum(attributes: Seq<super::event::Attributum>, text: Seq<char>) -> bool {
    &&& attributes.len() == 1
    &&& attributes[0].key@ == "error"@
    &&& attributes[0].value matches AttributumValue::String(t) && t@ == text
}

impl OrigoSpatii {
    /// The event `id` of operation `operation` from this span, before its
    /// kind, level, times and attributes are set.
    pub fn eventus(&self, id: EventusId, operation: &str) -> (r: EventusVestigium)
        ensures
            r@ == eventus_origo(*self, id, operation@),
    {
        let event = EventusVestigium::new(
            id,
            self.trace_id,
            self.span_id,
            self.effect_id,
            self.effect_name,
            operation,
        );
        match self.parent_span_id {
            Some(parent) => event.with_parent(parent),
            None => event,
        }
    }

    /// The start of `operation`, at the configured level, when `config`
    /// traces starts.
    pub fn initium(&self, config: &ConfigVestigium, id: EventusId, operation: &str) -> (r: Option<
        EventusVestigium,
    >)
        ensures
            !config.trace_starts ==> r is None,
            config.trace_starts ==> (r matches Some(e) && e@ == (EventusForma {
                kind: EventusKind::OperationStart,
                level: config.default_level,
                ..eventus_origo(*self, id, operation@)
            })),
    {
        if !config.trace_starts {
            return None;
        }
        Some(
            self.eventus(id, operation).with_kind(EventusKind::OperationStart).with_level(
                config.default_level,
            ),
        )
    }

    /// The end of `operation` after `duration_ns`, at the configured level,
    /// when `config` traces ends.
    pub fn finis(
        &self,
        config: &ConfigVestigium,
        id: EventusId,
        operation: &str,
        duration_ns: u64,
    ) -> (r: Option<EventusVestigium>)
        ensures
            !config.trace_ends ==> r is None,
            config.trace_ends ==> (r matches Some(e) && e@ == (EventusForma {
                kind: EventusKind::OperationEnd,
                level: config.default_level,
                duration_ns: Some(duration_ns),
                ..eventus_origo(*self, id, operation@)
            })),
    {
        if !config.trace_ends {
            return None;
        }
        Some(
            self.eventus(id, operation).with_kind(EventusKind::OperationEnd).with_level(
                config.default_level,
            ).with_duration(duration_ns),
        )
    }

    /// The failure of `operation` with message `error`, at level `Error`,
    /// when `config` traces errors.
    pub fn error(&self, config: &ConfigVestigium, id: EventusId, operation: &str, error: &str) -> (r:
        Option<EventusVestigium>)
        ensures
            !config.trace_errors ==> r is None,
            config.trace_errors ==> (r matches Some(e) && error_attributum(e@.attributes, error@)
                && e@ == (EventusForma {
                kind: EventusKind::OperationError,
                level: Gradus::Error,
                attributes: e@.attributes,
                ..eventus_origo(*self, id, operation@)
            })),
    {
        if !config.trace_errors {
            return None;
        }
        Some(self.error_eventus(id, operation, error))
    }

    /// The error event of `operation` with message `error`.
    fn error_eventus(&self, id: EventusId, operation: &str, error: &str) -> (r: EventusVestigium)
        ensures
            error_attributum(r@.attributes, error@),
            r@ == (EventusForma {
                kind: EventusKind::OperationError,
                level: Gradus::Error,
                attributes: r@.attributes,
                ..eventus_origo(*self, id, operation@)
            }),
    {
        let e = self.eventus(id, operation).with_kind(EventusKind::OperationError).with_level(
            Gradus::Error,
        );
        let ghost before = e@.attributes;
        let r = e.with_attribute("error", AttributumValue::String(error.to_string()));
        proof {
            reveal_strlit("error");
            assert(r@.attributes =~= before.push(r@.attributes.last()));
        }
        r
    }

    /// The start of a timed span for `operation` at `start_time_ns`.
    pub fn spatium_initium(&self, id: EventusId, operation: &str, start_time_ns: u64) -> (r:
        EventusVestigium)
        ensures
            r@ == (EventusForma {
                kind: EventusKind::OperationStart,
                timestamp_ns: start_time_ns,
                ..eventus_origo(*self, id, operation@)
            }),
    {
        self.eventus(id, operation).with_kind(EventusKind::OperationStart).with_timestamp(
            start_time_ns,
        )
    }

    /// The successful end, at `end_time_ns`, of the span for `operation`
    /// started at `start_time_ns`; the duration is zero when the end comes
    /// first.
    pub fn spatium_successus(
        &self,
        id: EventusId,
        operation: &str,
        start_time_ns: u64,
        end_time_ns: u64,
    ) -> (r: EventusVestigium)
        ensures
            r@ == (EventusForma {
                kind: EventusKind::OperationEnd,
                timestamp_ns: end_time_ns,
                duration_ns: Some(
                    if end_time_ns >= start_time_ns {
                        (end_time_ns - start_time_ns) as u64
                    } else {
                        0
                    },
                ),
                ..eventus_origo(*self, id, operation@)
            }),
    {
        let duration = end_time_ns.saturating_sub(start_time_ns);
        self.eventus(id, operation).with_kind(EventusKind::OperationEnd).with_timestamp(
            end_time_ns,
        ).with_duration(duration)
    }

    /// The failed end, at `end_time_ns` with message `error`, of the span
    /// for `operation` started at `start_time_ns`.
    pub fn spatium_error(
        &self,
        id: EventusId,
        operation: &str,
        error: &str,
        start_time_ns: u64,
        end_time_ns: u64,
    ) -> (r: EventusVestigium)
        ensures
            error_attributum(r@.attributes, error@),
            r@ == (EventusForma {
                kind: EventusKind::OperationError,
                level: Gradus::Error,
                timestamp_ns: end_time_ns,
                duration_ns: Some(
                    if end_time_ns >= start_time_ns {
                        (end_time_ns - start_time_ns) as u64
                    } else {
                        0
                    },
                ),
                attributes: r@.attributes,
                ..eventus_origo(*self, id, operation@)
            }),
    {
        let duration = end_time_ns.saturating_sub(start_time_ns);
        let e = self.eventus(id, operation).with_kind(EventusKind::OperationError).with_level(
            Gradus::Error,
        ).with_timestamp(end_time_ns).with_duration(duration);
        let ghost before = e@.attributes;
        let r = e.with_attribute("error", AttributumValue::String(error.to_string()));
        proof {
            reveal_strlit("error");
            assert(r@.attributes =~= before.push(r@.attributes.last()));
        }
        r
    }

    /// The end of a span for `operation` that was left without being
    /// closed: no time and no duration.
    pub fn spatium_relictum(&self, id: EventusId, operation: &str) -> (r: EventusVestigium)
        ensures
            r@ == (EventusForma {
                kind: EventusKind::OperationEnd,
                ..eventus_origo(*self, id, operation@)
            }),
    {
        self.eventus(id, operation).with_kind(EventusKind::OperationEnd)
    }
}

} // verus!
