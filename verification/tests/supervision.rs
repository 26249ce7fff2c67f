use std::time::Duration;

use ordofp_core::supervision::{
    ActioRestitutio, Arbor, ArborBuilder, ArborId, GenusInfantis, InfansCurrens, InfansSpec,
    IntensitasRestitutio, ModusRestitutio, OrdoTerminatio, RestartDecision, StatusArbor,
    StatusInfantis, StrategiaSupervisionis, SupervisioError,
};

fn arbor(name: &str) -> Arbor {
    Arbor::new(name, ArborId::new(7))
}

#[test]
fn test_supervisio_error_display() {
    let err = SupervisioError::IntensitasExcedit {
        child_id: "worker1".into(),
        restarts: 5,
        window_secs: 60,
    };
    let display = err.to_string();
    assert!(display.contains("worker1"));
    assert!(display.contains('5'));
}

#[test]
fn test_actio_restitutio() {
    assert_eq!(ActioRestitutio::Restituere, ActioRestitutio::Restituere);
    assert_ne!(ActioRestitutio::Restituere, ActioRestitutio::Escalare);
}

#[test]
fn test_status_infantis() {
    assert_eq!(StatusInfantis::Currens, StatusInfantis::Currens);
    assert_ne!(StatusInfantis::Currens, StatusInfantis::Defectus);
}

#[test]
fn test_intensity_within_limit() {
    let mut intensity = IntensitasRestitutio::new(3, 60);

    assert!(intensity.record_restart(100));
    assert!(intensity.record_restart(110));
    assert!(intensity.record_restart(120));
    assert!(!intensity.record_restart(130));
}

#[test]
fn test_intensity_window_expiry() {
    let mut intensity = IntensitasRestitutio::new(3, 60);

    assert!(intensity.record_restart(100));
    assert!(intensity.record_restart(110));
    assert!(intensity.record_restart(120));
    assert!(!intensity.record_restart(130));

    assert!(intensity.record_restart(200));
}

#[test]
fn test_strategy_unus_pro_uno() {
    let mut strategy = StrategiaSupervisionis::unus_pro_uno(2, Duration::from_secs(60));

    let decision = strategy.decide(1, 3, 100);
    assert_eq!(decision, RestartDecision::Restart(vec![1]));

    let decision = strategy.decide(1, 3, 110);
    assert_eq!(decision, RestartDecision::Restart(vec![1]));

    let decision = strategy.decide(1, 3, 120);
    assert_eq!(decision, RestartDecision::Escalate);
}

#[test]
fn test_strategy_omnes_pro_uno() {
    let mut strategy = StrategiaSupervisionis::omnes_pro_uno(1, Duration::from_secs(60));

    let decision = strategy.decide(1, 3, 100);
    assert_eq!(decision, RestartDecision::Restart(vec![0, 1, 2]));
}

#[test]
fn test_strategy_reliqui_pro_uno() {
    let mut strategy = StrategiaSupervisionis::reliqui_pro_uno(1, Duration::from_secs(60));

    let decision = strategy.decide(1, 4, 100);
    assert_eq!(decision, RestartDecision::Restart(vec![1, 2, 3]));
}

#[test]
fn test_modus_restitutio() {
    assert!(ModusRestitutio::Permanens.should_restart(true));
    assert!(ModusRestitutio::Permanens.should_restart(false));

    assert!(!ModusRestitutio::Transiens.should_restart(true));
    assert!(ModusRestitutio::Transiens.should_restart(false));

    assert!(!ModusRestitutio::Temporarius.should_restart(true));
    assert!(!ModusRestitutio::Temporarius.should_restart(false));
}

#[test]
fn test_infans_spec_worker() {
    let spec = InfansSpec::worker("worker1");
    assert_eq!(spec.id(), "worker1");
    assert_eq!(spec.genus(), GenusInfantis::Operarius);
}

#[test]
fn test_infans_spec_supervisor() {
    let spec = InfansSpec::supervisor("supervisor1");
    assert_eq!(spec.id(), "supervisor1");
    assert_eq!(spec.genus(), GenusInfantis::Supervisor);
}

#[test]
fn test_infans_spec_builder() {
    let spec = InfansSpec::worker("worker1")
        .with_modus(ModusRestitutio::Transiens)
        .with_priority(10);

    assert_eq!(spec.modus(), ModusRestitutio::Transiens);
    assert_eq!(spec.priority(), 10);
}

#[test]
fn test_infans_currens() {
    let spec = InfansSpec::worker("worker1");
    let mut child = InfansCurrens::new(spec);

    assert_eq!(child.status(), StatusInfantis::Incipiens);
    assert_eq!(child.restart_count(), 0);

    child.mark_running();
    assert_eq!(child.status(), StatusInfantis::Currens);

    child.record_restart(1000);
    assert_eq!(child.status(), StatusInfantis::Restituens);
    assert_eq!(child.restart_count(), 1);
}

#[test]
fn test_arbor_new() {
    let arbor = arbor("test_supervisor");
    assert_eq!(arbor.name(), "test_supervisor");
    assert_eq!(arbor.status(), StatusArbor::Initians);
    assert_eq!(arbor.child_count(), 0);
}

#[test]
fn test_arbor_add_children() {
    let arbor = arbor("supervisor")
        .add_child(InfansSpec::worker("worker1"))
        .add_child(InfansSpec::worker("worker2"));

    assert_eq!(arbor.child_count(), 2);
}

#[test]
fn test_arbor_builder() {
    let arbor = ArborBuilder::new("supervisor", ArborId::new(1))
        .strategy(StrategiaSupervisionis::simplex())
        .worker("worker1")
        .worker("worker2")
        .build();

    assert_eq!(arbor.child_count(), 2);
    assert_eq!(arbor.strategy().name(), "Simplex");
}

#[test]
fn test_arbor_initialize() {
    let mut arbor = arbor("supervisor")
        .add_child(InfansSpec::worker("worker1"))
        .add_child(InfansSpec::worker("worker2"));

    arbor
        .initialize()
        .expect("arbor with two workers should initialize without error");

    assert_eq!(arbor.status(), StatusArbor::Currens);
    assert_eq!(arbor.children().len(), 2);
}

#[test]
fn test_arbor_handle_failure() {
    let mut arbor = arbor("supervisor")
        .with_strategy(StrategiaSupervisionis::simplex())
        .add_child(InfansSpec::worker("worker1"));

    arbor
        .initialize()
        .expect("arbor with one worker should initialize without error");

    let action = arbor
        .handle_failure(0, 1000, false)
        .expect("simplex strategy should return a restart action for a valid child index");
    assert_eq!(action, ActioRestitutio::Restituere);
}

#[test]
fn temporarius_child_is_not_restarted() {
    let mut arbor = arbor("supervisor")
        .with_strategy(StrategiaSupervisionis::simplex())
        .add_child(InfansSpec::worker("worker1").with_modus(ModusRestitutio::Temporarius));

    arbor
        .initialize()
        .expect("arbor with one worker should initialize without error");

    let actio = arbor.handle_failure(0, 0, false).unwrap();
    assert_eq!(actio, ActioRestitutio::Ignorare);
}

#[test]
fn transiens_child_normal_vs_abnormal() {
    let mut arbor = arbor("supervisor")
        .with_strategy(StrategiaSupervisionis::simplex())
        .add_child(InfansSpec::worker("worker1").with_modus(ModusRestitutio::Transiens));

    arbor
        .initialize()
        .expect("arbor with one worker should initialize without error");
    assert_eq!(
        arbor.handle_failure(0, 0, true).unwrap(),
        ActioRestitutio::Ignorare
    );

    let mut arbor = self::arbor("supervisor")
        .with_strategy(StrategiaSupervisionis::simplex())
        .add_child(InfansSpec::worker("worker1").with_modus(ModusRestitutio::Transiens));

    arbor
        .initialize()
        .expect("arbor with one worker should initialize without error");
    assert_eq!(
        arbor.handle_failure(0, 0, false).unwrap(),
        ActioRestitutio::Restituere
    );
}

#[test]
fn test_arbor_summary() {
    let mut arbor = arbor("supervisor")
        .add_child(InfansSpec::worker("worker1"))
        .add_child(InfansSpec::worker("worker2"))
        .add_child(InfansSpec::worker("worker3"));

    arbor
        .initialize()
        .expect("arbor with three workers should initialize without error");

    arbor.mark_child_running(0);
    arbor.mark_child_running(1);

    let summary = arbor.status_summary();
    assert_eq!(summary.total, 3);
    assert_eq!(summary.running, 2);
}

#[test]
fn test_arbor_shutdown_order() {
    let mut arbor = arbor("supervisor")
        .with_shutdown_order(OrdoTerminatio::Ultimus)
        .add_child(InfansSpec::worker("worker1"))
        .add_child(InfansSpec::worker("worker2"))
        .add_child(InfansSpec::worker("worker3"));

    arbor.initialize().expect(
        "arbor with three workers and Ultimus shutdown order should initialize without error",
    );

    let indices = arbor.shutdown_indices();
    assert_eq!(indices, vec![2, 1, 0]);
}

// Further scenarios of the supervision contracts.

#[test]
fn error_texts_are_exact() {
    let err = SupervisioError::IntensitasExcedit {
        child_id: "w".into(),
        restarts: 12,
        window_secs: 305,
    };
    assert_eq!(err.to_string(), "restart intensity exceeded for 'w': 12 restarts in 305s");
    assert_eq!(
        SupervisioError::InitiumDefectum { child_id: "a".into(), reason: "b".into() }.to_string(),
        "child 'a' failed to start: b"
    );
    assert_eq!(
        SupervisioError::TerminatioAbnormis { child_id: "a".into(), reason: "b".into() }.to_string(),
        "child 'a' terminated abnormally: b"
    );
    assert_eq!(SupervisioError::SupervisioTerminata.to_string(), "supervisor was terminated");
    assert_eq!(SupervisioError::Alius("x".into()).to_string(), "supervision error: x");
}

#[test]
fn initialize_sorts_stably_by_priority() {
    let mut arbor = arbor("s")
        .add_child(InfansSpec::worker("a").with_priority(5))
        .add_child(InfansSpec::worker("b").with_priority(1))
        .add_child(InfansSpec::worker("c").with_priority(5))
        .add_child(InfansSpec::supervisor("d"))
        .add_child(InfansSpec::worker("e").with_priority(1));
    arbor.initialize().unwrap();
    let ids: Vec<&str> = arbor.children().iter().map(|c| c.spec().id()).collect();
    assert_eq!(ids, vec!["b", "e", "a", "c", "d"]);
    assert!(arbor.children().iter().all(|c| c.status() == StatusInfantis::Incipiens));
}

#[test]
fn invalid_index_is_refused() {
    let mut arbor = arbor("s").add_child(InfansSpec::worker("a"));
    match arbor.handle_failure(0, 1, false) {
        Err(SupervisioError::Alius(m)) => assert_eq!(m, "invalid child index"),
        _ => panic!("expected an error before initialization"),
    }
}

#[test]
fn escalation_reports_child_and_window() {
    let mut arbor = arbor("s")
        .with_strategy(StrategiaSupervisionis::unus_pro_uno(1, Duration::from_secs(30)))
        .add_child(InfansSpec::worker("a"));
    arbor.initialize().unwrap();
    assert_eq!(arbor.handle_failure(0, 100, false).unwrap(), ActioRestitutio::Restituere);
    assert_eq!(arbor.children()[0].restart_count(), 1);
    match arbor.handle_failure(0, 101, false) {
        Err(SupervisioError::IntensitasExcedit { child_id, restarts, window_secs }) => {
            assert_eq!(child_id, "a");
            assert_eq!(restarts, 1);
            assert_eq!(window_secs, 30);
        }
        _ => panic!("expected escalation"),
    }
    assert_eq!(arbor.children()[0].status(), StatusInfantis::Defectus);
}

#[test]
fn proprius_counts_down_and_falls_back_to_default_window() {
    let mut arbor = arbor("s")
        .with_strategy(StrategiaSupervisionis::proprius("mine", 1))
        .add_child(InfansSpec::worker("a"));
    arbor.initialize().unwrap();
    assert_eq!(arbor.strategy().name(), "mine");
    assert_eq!(arbor.handle_failure(0, 5, false).unwrap(), ActioRestitutio::Restituere);
    match arbor.handle_failure(0, 6, false) {
        Err(SupervisioError::IntensitasExcedit { window_secs, .. }) => assert_eq!(window_secs, 60),
        _ => panic!("expected escalation"),
    }
}

#[test]
fn omnes_restarts_every_child() {
    let mut arbor = arbor("s")
        .with_strategy(StrategiaSupervisionis::omnes_pro_uno(5, Duration::from_secs(10)))
        .add_child(InfansSpec::worker("a"))
        .add_child(InfansSpec::worker("b"))
        .add_child(InfansSpec::worker("c"));
    arbor.initialize().unwrap();
    assert_eq!(arbor.handle_failure(1, 9, false).unwrap(), ActioRestitutio::Restituere);
    assert!(arbor.children().iter().all(|c| c.restart_count() == 1));
    let summary = arbor.status_summary();
    assert_eq!(summary.restarting, 3);
    assert!(!summary.is_healthy());
}

#[test]
fn reliqui_restarts_the_rest() {
    let mut arbor = arbor("s")
        .with_strategy(StrategiaSupervisionis::reliqui_pro_uno(5, Duration::from_secs(10)))
        .add_child(InfansSpec::worker("a"))
        .add_child(InfansSpec::worker("b"))
        .add_child(InfansSpec::worker("c"));
    arbor.initialize().unwrap();
    arbor.handle_failure(1, 9, false).unwrap();
    let counts: Vec<u32> = arbor.children().iter().map(|c| c.restart_count()).collect();
    assert_eq!(counts, vec![0, 1, 1]);
}

#[test]
fn intensity_limit_zero_never_admits() {
    let mut intensity = IntensitasRestitutio::new(0, 10);
    assert!(!intensity.record_restart(0));
    assert_eq!(intensity.current_count(), 0);
}

#[test]
fn intensity_reset_and_window() {
    let mut intensity = IntensitasRestitutio::default();
    assert_eq!(intensity.window_secs(), 60);
    assert!(intensity.record_restart(5));
    assert_eq!(intensity.current_count(), 1);
    intensity.reset();
    assert_eq!(intensity.current_count(), 0);
}

#[test]
fn decisions_classify() {
    let d = RestartDecision::Restart(vec![3]);
    assert!(d.is_restart());
    assert!(!d.is_escalate());
    assert_eq!(d.children_to_restart(), Some(&[3usize][..]));
    assert!(RestartDecision::Escalate.is_escalate());
    assert_eq!(RestartDecision::Escalate.children_to_restart(), None);
}

#[test]
fn all_children_running_and_terminated() {
    let mut arbor = arbor("s")
        .add_child(InfansSpec::worker("a"))
        .add_child(InfansSpec::worker("b"));
    arbor.initialize().unwrap();
    assert!(!arbor.all_children_running());
    arbor.mark_child_running(0);
    arbor.mark_child_running(1);
    arbor.mark_child_running(7);
    assert!(arbor.all_children_running());
    assert!(arbor.status_summary().is_healthy());
    arbor.mark_child_terminated(0);
    arbor.mark_child_terminated(1);
    assert!(arbor.all_children_terminated());
}

#[test]
fn default_strategy_and_window() {
    let s = StrategiaSupervisionis::default();
    assert_eq!(s.name(), "UnusProUno");
    assert_eq!(s.window_secs(), Some(60));
    assert_eq!(StrategiaSupervisionis::simplex().window_secs(), None);
    assert_eq!(InfansSpec::worker("w").shutdown_timeout(), Duration::from_secs(5));
    assert_eq!(InfansSpec::supervisor("w").priority(), 50);
}

#[test]
fn test_arbor_id_display() {
    assert_eq!(ArborId::new(42).to_string(), "Arbor(42)");
    assert_eq!(ArborId::new(0).to_string(), "Arbor(0)");
}
