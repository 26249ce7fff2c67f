use ordofp_core::tracing::{
    sampled_under, splitmix64_mix, ArchivumEventuum, AttributumValue, CollectorNullus,
    ConfigVestigium, ContextusStack, ContextusVestigium, EventusId, EventusKind,
    EventusVestigium, FiltrumEventuum, Gradus, Impedimenta, OrigoSpatii, Samplator,
    SamplatorNunquam, SamplatorSemper, SpatiumId, VestigiumId,
};

#[test]
fn test_vestigium_id_display() {
    let id = VestigiumId::new(255);
    let display = id.to_string();
    assert_eq!(display, "00000000000000ff");
}

#[test]
fn test_gradus_ordering() {
    assert!(Gradus::Vestigium < Gradus::Debug);
    assert!(Gradus::Debug < Gradus::Info);
    assert!(Gradus::Info < Gradus::Monitum);
    assert!(Gradus::Monitum < Gradus::Error);
}

#[test]
fn test_context_root() {
    let ctx = ContextusVestigium::root(VestigiumId::new(1), SpatiumId::new(1));
    assert!(ctx.parent_span_id().is_none());
    assert!(ctx.is_sampled());
}

#[test]
fn test_context_child() {
    let parent = ContextusVestigium::root(VestigiumId::new(3), SpatiumId::new(10));
    let child = parent.child(SpatiumId::new(11));

    assert_eq!(child.trace_id(), parent.trace_id());
    assert_eq!(child.parent_span_id(), Some(parent.span_id()));
    assert_ne!(child.span_id(), parent.span_id());
}

#[test]
fn test_context_stack() {
    let mut stack = ContextusStack::new();

    let ctx1 = stack.enter(VestigiumId::new(1), SpatiumId::new(1));
    assert_eq!(stack.depth(), 1);
    assert!(ctx1.parent_span_id().is_none());

    let ctx2 = stack.enter(VestigiumId::new(2), SpatiumId::new(2));
    assert_eq!(stack.depth(), 2);
    assert_eq!(ctx2.parent_span_id(), Some(ctx1.span_id()));

    stack.exit();
    assert_eq!(stack.depth(), 1);
}

#[test]
fn test_sampler_semper() {
    let sampler = SamplatorSemper;
    assert!(sampler.should_sample(VestigiumId::new(1)));
}

#[test]
fn test_sampler_nunquam() {
    let sampler = SamplatorNunquam;
    assert!(!sampler.should_sample(VestigiumId::new(1)));
}

#[test]
fn test_impedimenta() {
    let mut baggage = Impedimenta::new();
    baggage.set("user_id", "123");
    baggage.set("session", "abc");

    assert_eq!(baggage.get("user_id"), Some("123"));
    assert_eq!(baggage.len(), 2);

    baggage.remove("session");
    assert_eq!(baggage.len(), 1);
}

#[test]
fn test_eventus_kind() {
    assert!(EventusKind::OperationStart.is_start());
    assert!(EventusKind::OperationEnd.is_end());
    assert!(EventusKind::OperationError.is_error());
}

#[test]
fn test_config_levels() {
    let minimal = ConfigVestigium::minimal();
    assert!(!minimal.trace_starts);
    assert!(minimal.trace_errors);

    let verbose = ConfigVestigium::verbose();
    assert!(verbose.include_args);
    assert!(verbose.include_results);
}

// Further scenarios.

#[test]
fn traceparent_has_w3c_layout() {
    let ctx = ContextusVestigium::new(VestigiumId::new(0xabc), SpatiumId::new(0x1f));
    let tp = ctx.to_traceparent();
    assert_eq!(
        std::str::from_utf8(&tp).unwrap(),
        "00-0000000000000abc0000000000000000-000000000000001f-01"
    );
    let unsampled = ctx.with_sampled(false).to_traceparent();
    assert_eq!(unsampled[54], b'0');
}

#[test]
fn baggage_set_overwrites_and_remove_clears() {
    let mut b = Impedimenta::default();
    assert!(b.is_empty());
    b.set("k", "1");
    b.set("j", "2");
    b.set("k", "3");
    assert_eq!(b.len(), 2);
    assert_eq!(b.get("k"), Some("3"));
    assert_eq!(b.iter(), vec![("k", "3"), ("j", "2")]);
    b.remove("k");
    assert_eq!(b.get("k"), None);
    assert_eq!(b.get("j"), Some("2"));
}

#[test]
fn stack_enter_on_empty_starts_a_trace() {
    let mut stack = ContextusStack::default();
    assert!(stack.is_empty());
    assert!(stack.current().is_none());
    let root = stack.enter(VestigiumId::new(9), SpatiumId::new(4));
    assert_eq!(root.trace_id(), VestigiumId::new(9));
    let child = stack.enter(VestigiumId::new(100), SpatiumId::new(5));
    assert_eq!(child.trace_id(), VestigiumId::new(9));
    assert_eq!(stack.pop().unwrap().span_id().value(), 5);
    assert_eq!(stack.current().unwrap().span_id().value(), 4);
    stack.exit();
    stack.exit();
    assert_eq!(stack.depth(), 0);
}

#[test]
fn names_of_levels_and_kinds() {
    assert_eq!(Gradus::Monitum.name(), "WARN");
    assert_eq!(Gradus::default(), Gradus::Info);
    assert_eq!(EventusKind::FibraCancel.name(), "fibra.cancel");
    assert!(EventusKind::FibraSpawn.is_start());
    assert!(!EventusKind::Custom.is_end());
    assert_eq!(EventusId::new(4).value(), 4);
    assert_eq!(SpatiumId::new(16).to_string(), "0000000000000010");
    assert_eq!(ConfigVestigium::default(), ConfigVestigium::standard());
    assert_eq!(ConfigVestigium::full().default_level, Gradus::Vestigium);
    let _ = CollectorNullus::new();
}

#[test]
fn splitmix_known_value() {
    assert_eq!(splitmix64_mix(0), 0xe220a8397b1dcdaf);
    assert_ne!(splitmix64_mix(1), splitmix64_mix(2));
}

fn make_event(effect_name: &str) -> EventusVestigium {
    EventusVestigium::new(
        EventusId::new(1),
        VestigiumId::new(10),
        SpatiumId::new(20),
        1,
        effect_name,
        "operation",
    )
}

fn origo(parent: Option<SpatiumId>) -> OrigoSpatii {
    OrigoSpatii {
        trace_id: VestigiumId::new(3),
        span_id: SpatiumId::new(4),
        parent_span_id: parent,
        effect_id: 1,
        effect_name: "TestEffect",
    }
}

#[test]
fn test_event_creation() {
    let event = EventusVestigium::new(
        EventusId::new(1),
        VestigiumId::new(1),
        SpatiumId::new(1),
        1,
        "StateEffect",
        "get",
    );

    assert_eq!(event.effect_name(), "StateEffect");
    assert_eq!(event.operation(), "get");
    assert_eq!(event.kind(), EventusKind::OperationStart);
    assert_eq!(event.level(), Gradus::Info);
    assert_eq!(event.timestamp_ns(), 0);
    assert_eq!(event.duration_ns(), None);
    assert!(event.parent_span_id().is_none());
}

#[test]
fn test_event_with_attributes() {
    let event = EventusVestigium::new(
        EventusId::new(2),
        VestigiumId::new(1),
        SpatiumId::new(1),
        1,
        "IO",
        "read",
    )
    .with_attribute("path", AttributumValue::from(String::from("/tmp/file.txt")))
    .with_attribute("size", AttributumValue::from(1024u64));

    assert_eq!(event.attributes().len(), 2);
    assert_eq!(event.attributes()[0].key, "path");
    assert_eq!(event.attributes()[1].value, AttributumValue::UInt(1024));
}

#[test]
fn test_event_builders() {
    let event = make_event("E")
        .with_parent(SpatiumId::new(9))
        .with_timestamp(100)
        .with_duration(5)
        .with_level(Gradus::Monitum)
        .with_kind(EventusKind::EffectHandle);
    assert_eq!(event.parent_span_id(), Some(SpatiumId::new(9)));
    assert_eq!(event.timestamp_ns(), 100);
    assert_eq!(event.duration_ns(), Some(5));
    assert_eq!(event.level(), Gradus::Monitum);
    assert_eq!(event.kind(), EventusKind::EffectHandle);
    assert_eq!(event.id(), EventusId::new(1));
    assert_eq!(event.trace_id(), VestigiumId::new(10));
    assert_eq!(event.span_id(), SpatiumId::new(20));
    assert_eq!(event.effect_id(), 1);
}

#[test]
fn test_attributum_value_from() {
    assert_eq!(AttributumValue::from(-3i32), AttributumValue::Int(-3));
    assert_eq!(AttributumValue::from(7u32), AttributumValue::UInt(7));
    assert_eq!(AttributumValue::from(true), AttributumValue::Bool(true));
    assert_eq!(AttributumValue::from(-9i64), AttributumValue::Int(-9));
}

#[test]
fn test_null_collector() {
    let collector = CollectorNullus::new();
    assert!(!collector.is_enabled(1));
}

#[test]
fn test_memory_collector() {
    let mut collector = ArchivumEventuum::new(100);

    collector.record(make_event("Effect1"));
    collector.record(make_event("Effect2"));

    assert_eq!(collector.event_count(), 2);
    assert_eq!(collector.dropped_count(), 0);
}

#[test]
fn test_memory_collector_overflow() {
    let mut collector = ArchivumEventuum::new(2);

    collector.record(make_event("Effect1"));
    collector.record(make_event("Effect2"));
    collector.record(make_event("Effect3"));

    assert_eq!(collector.event_count(), 2);
    assert_eq!(collector.dropped_count(), 1);
    assert_eq!(collector.events()[1].effect_name(), "Effect2");

    collector.clear();
    assert_eq!(collector.event_count(), 0);
    assert_eq!(collector.dropped_count(), 0);
}

#[test]
fn test_memory_collector_default_bound() {
    let mut collector = ArchivumEventuum::default();
    for _ in 0..10001 {
        collector.record(make_event("E"));
    }
    assert_eq!(collector.event_count(), 10000);
    assert_eq!(collector.dropped_count(), 1);
}

#[test]
fn test_filtered_collector() {
    let filter = FiltrumEventuum::new().with_min_level(Gradus::Info);
    let event = make_event("Test");
    // Recorded: Info >= Info.
    assert!(filter.should_record(&event));
    assert!(!filter.should_record(&make_event("Test").with_level(Gradus::Debug)));
}

#[test]
fn test_filter_effect_lists() {
    let filter = FiltrumEventuum::new().include_effects(vec![1, 2]).exclude_effects(vec![2]);
    assert!(filter.admits_effect(1));
    assert!(!filter.admits_effect(2));
    assert!(!filter.admits_effect(3));
    let open = FiltrumEventuum::default().exclude_effects(vec![5]);
    assert!(open.admits_effect(3));
    assert!(!open.admits_effect(5));
}

#[test]
fn test_tracing_handler_record_start() {
    let event = origo(None).initium(&ConfigVestigium::standard(), EventusId::new(5), "operation");
    let event = event.unwrap();
    assert_eq!(event.kind(), EventusKind::OperationStart);
    assert_eq!(event.level(), Gradus::Info);
    assert_eq!(event.effect_name(), "TestEffect");
    assert!(origo(None)
        .initium(&ConfigVestigium::minimal(), EventusId::new(5), "operation")
        .is_none());
}

#[test]
fn test_tracing_handler_record_error() {
    let event = origo(Some(SpatiumId::new(2)))
        .error(&ConfigVestigium::minimal(), EventusId::new(6), "operation", "something went wrong")
        .unwrap();
    assert_eq!(event.kind(), EventusKind::OperationError);
    assert_eq!(event.level(), Gradus::Error);
    assert_eq!(event.parent_span_id(), Some(SpatiumId::new(2)));
    assert_eq!(event.attributes().len(), 1);
    assert_eq!(event.attributes()[0].key, "error");
    assert_eq!(
        event.attributes()[0].value,
        AttributumValue::String(String::from("something went wrong"))
    );
}

#[test]
fn test_tracing_handler_record_end() {
    let config = ConfigVestigium::verbose();
    let event = origo(None).finis(&config, EventusId::new(7), "op", 42).unwrap();
    assert_eq!(event.kind(), EventusKind::OperationEnd);
    assert_eq!(event.duration_ns(), Some(42));
    assert_eq!(event.level(), Gradus::Debug);
    let mut quiet = config;
    quiet.trace_ends = false;
    assert!(origo(None).finis(&quiet, EventusId::new(7), "op", 42).is_none());
}

#[test]
fn test_span_events() {
    let o = origo(None);
    let start = o.spatium_initium(EventusId::new(1), "op", 100);
    assert_eq!(start.timestamp_ns(), 100);
    assert_eq!(start.kind(), EventusKind::OperationStart);
    let end = o.spatium_successus(EventusId::new(2), "op", 100, 250);
    assert_eq!(end.duration_ns(), Some(150));
    assert_eq!(end.timestamp_ns(), 250);
    let early = o.spatium_successus(EventusId::new(3), "op", 300, 250);
    assert_eq!(early.duration_ns(), Some(0));
    let failed = o.spatium_error(EventusId::new(4), "op", "boom", 10, 15);
    assert_eq!(failed.kind(), EventusKind::OperationError);
    assert_eq!(failed.duration_ns(), Some(5));
    let left = o.spatium_relictum(EventusId::new(5), "op");
    assert_eq!(left.kind(), EventusKind::OperationEnd);
    assert_eq!(left.duration_ns(), None);
}

#[test]
fn test_sampled_under() {
    let id = VestigiumId::new(1);
    assert!(!sampled_under(id, 0));
    assert!(sampled_under(id, u64::MAX) == (splitmix64_mix(1) < u64::MAX));
    assert_eq!(Gradus::Error.rank(), 4);
    assert_eq!(Gradus::Vestigium.rank(), 0);
}
