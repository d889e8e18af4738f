use stourney::launch::{Command, ARENA_PORT, INCREMENT_SECS, INITIAL_TIME_SECS};
use stourney::pipeline::{ConfigBuilder, SetupError, Step};
use stourney::project::{classify, ProjectInfo, ProjectKind};

fn info(kind: ProjectKind, dir: &str) -> ProjectInfo {
    ProjectInfo {
        kind,
        binary: format!("{}/target/release/bot", dir),
        script: format!("{}/main.py", dir),
        interpreter: format!("{}/venv/bin/python", dir),
        static_assets: format!("{}/static", dir),
    }
}

#[test]
fn classify_recognizes_each_marker() {
    assert_eq!(classify(true, false), ProjectKind::Compiled);
    assert_eq!(classify(false, true), ProjectKind::Interpreted);
    assert_eq!(classify(false, false), ProjectKind::Unknown);
    assert_eq!(classify(true, true), ProjectKind::Unknown);
}

#[test]
fn scenario_compiled_then_interpreted() {
    let sel = vec!["projA".to_string(), "projB".to_string()];
    let mut m = ConfigBuilder::new(sel).unwrap();

    match m.next_step() {
        Step::Classify(p) => assert_eq!(p, "projA"),
        _ => panic!("expected a classification request"),
    }
    m.report_classification(info(ProjectKind::Compiled, "projA")).unwrap();
    match m.next_step() {
        Step::RunBuild(p) => assert_eq!(p, "projA"),
        _ => panic!("expected a build request"),
    }
    m.report_build(true).unwrap();
    match m.next_step() {
        Step::Classify(p) => assert_eq!(p, "projB"),
        _ => panic!("expected a classification request"),
    }
    m.report_classification(info(ProjectKind::Interpreted, "projB")).unwrap();
    match m.next_step() {
        Step::Ready => (),
        _ => panic!("expected the pipeline to be ready"),
    }

    let cfg = m.finish().unwrap();
    assert_eq!(
        cfg.binaries,
        vec![
            "projA/target/release/bot".to_string(),
            "projB/main.py".to_string()
        ]
    );
    assert_eq!(cfg.interpreter.as_deref(), Some("projB/venv/bin/python"));
    assert_eq!(cfg.static_assets.as_deref(), Some("projB/static"));
    assert_eq!(cfg.port, ARENA_PORT);
    assert_eq!(cfg.initial_time_secs, INITIAL_TIME_SECS);
    assert_eq!(cfg.increment_secs, INCREMENT_SECS);
    assert!(!cfg.watch);
    assert!(cfg.api_key.is_none());
}

#[test]
fn empty_selection_is_no_competitors() {
    match ConfigBuilder::new(Vec::new()) {
        Err(SetupError::NoCompetitors) => (),
        _ => panic!("an empty selection must be rejected outright"),
    }
}

#[test]
fn unknown_project_fails_fast() {
    let sel = vec!["projX".to_string(), "projY".to_string()];
    let mut m = ConfigBuilder::new(sel).unwrap();
    match m.report_classification(info(ProjectKind::Unknown, "projX")) {
        Err(SetupError::UnrecognizedProject(p)) => assert_eq!(p, "projX"),
        _ => panic!("an unknown project must abort the pipeline"),
    }
    // The competitor after the failure is never touched: the halted
    // pipeline requests neither a classification nor a build.
    match m.next_step() {
        Step::Halted => (),
        _ => panic!("a halted pipeline must request nothing"),
    }
}

#[test]
fn build_failure_halts_before_later_competitors() {
    let sel = vec!["projA".to_string(), "projB".to_string()];
    let mut m = ConfigBuilder::new(sel).unwrap();
    m.report_classification(info(ProjectKind::Compiled, "projA")).unwrap();
    match m.report_build(false) {
        Err(SetupError::Build(p)) => assert_eq!(p, "projA"),
        _ => panic!("a failed build must abort the pipeline"),
    }
    // projB (interpreted) is never resolved.
    match m.next_step() {
        Step::Halted => (),
        _ => panic!("a halted pipeline must request nothing"),
    }
}

#[test]
fn artifact_order_matches_selection_order() {
    let sel = vec!["p0".to_string(), "p1".to_string(), "p2".to_string()];
    let mut m = ConfigBuilder::new(sel).unwrap();
    m.report_classification(info(ProjectKind::Interpreted, "p0")).unwrap();
    m.report_classification(info(ProjectKind::Compiled, "p1")).unwrap();
    m.report_build(true).unwrap();
    m.report_classification(info(ProjectKind::Interpreted, "p2")).unwrap();
    let cfg = m.finish().unwrap();
    assert_eq!(
        cfg.binaries,
        vec![
            "p0/main.py".to_string(),
            "p1/target/release/bot".to_string(),
            "p2/main.py".to_string()
        ]
    );
}

#[test]
fn interpreter_last_writer_wins() {
    let sel = vec!["a".to_string(), "b".to_string()];
    let mut m = ConfigBuilder::new(sel).unwrap();
    m.report_classification(info(ProjectKind::Interpreted, "a")).unwrap();
    m.report_classification(info(ProjectKind::Interpreted, "b")).unwrap();
    let cfg = m.finish().unwrap();
    assert_eq!(cfg.interpreter.as_deref(), Some("b/venv/bin/python"));
    assert_eq!(cfg.static_assets.as_deref(), Some("b/static"));
}

#[test]
fn compiled_only_selection_still_resolves_paths() {
    let sel = vec!["only".to_string()];
    let mut m = ConfigBuilder::new(sel).unwrap();
    m.report_classification(info(ProjectKind::Compiled, "only")).unwrap();
    m.report_build(true).unwrap();
    let cfg = m.finish().unwrap();
    assert_eq!(cfg.binaries, vec!["only/target/release/bot".to_string()]);
    assert_eq!(cfg.interpreter.as_deref(), Some("only/venv/bin/python"));
}

#[test]
fn with_reporting_sets_flag_and_credential() {
    let sel = vec!["a".to_string()];
    let mut m = ConfigBuilder::new(sel).unwrap();
    m.report_classification(info(ProjectKind::Interpreted, "a")).unwrap();
    let cfg = m.finish().unwrap();
    let binaries = cfg.binaries.clone();
    let watched = cfg.with_reporting(Some("credential".to_string()));
    assert!(watched.watch);
    assert_eq!(watched.api_key.as_deref(), Some("credential"));
    assert_eq!(watched.binaries, binaries);
    assert_eq!(watched.port, ARENA_PORT);
}

#[test]
fn with_reporting_without_credential_keeps_flag() {
    let sel = vec!["a".to_string()];
    let mut m = ConfigBuilder::new(sel).unwrap();
    m.report_classification(info(ProjectKind::Interpreted, "a")).unwrap();
    let cfg = m.finish().unwrap();
    let watched = cfg.with_reporting(None);
    assert!(watched.watch);
    assert!(watched.api_key.is_none());
}

fn two_competitor_config() -> stourney::launch::LaunchConfig {
    let sel = vec!["a".to_string(), "b".to_string()];
    let mut m = ConfigBuilder::new(sel).unwrap();
    m.report_classification(info(ProjectKind::Interpreted, "a")).unwrap();
    m.report_classification(info(ProjectKind::Interpreted, "b")).unwrap();
    m.finish().unwrap()
}

#[test]
fn prepared_arena_carries_watch_credential() {
    let cfg = two_competitor_config().with_reporting(Some("credential".to_string()));
    let arena = stourney::arena::prepare_arena(&cfg).build();
    assert_eq!(arena.api_key(), Some("credential".to_string()));
}

#[test]
fn prepared_arena_without_credential_gets_empty_one() {
    let cfg = two_competitor_config().with_reporting(None);
    let arena = stourney::arena::prepare_arena(&cfg).build();
    assert_eq!(arena.api_key(), Some(String::new()));
}

#[test]
fn prepared_arena_without_reporting_has_no_credential() {
    let cfg = two_competitor_config();
    let arena = stourney::arena::prepare_arena(&cfg).build();
    assert_eq!(arena.api_key(), None);
}

#[test]
fn command_modes_dispatch() {
    assert!(Command::Run.needs_launch_config());
    assert!(Command::Watch.needs_launch_config());
    assert!(!Command::Update.needs_launch_config());
    assert!(Command::Watch.wants_reporting());
    assert!(!Command::Run.wants_reporting());
    assert!(!Command::Update.wants_reporting());
}
