use stourney::settings::{show_competitors, Config};
use stourney::update::UpdateRun;

#[test]
fn update_attempts_every_competitor_despite_failures() {
    let projects = vec!["p0".to_string(), "p1".to_string(), "p2".to_string()];
    let mut w = UpdateRun::new(projects);
    let mut attempted = Vec::new();
    // Fail the first and the third refresh; the walk must still reach all
    // three competitors.
    let outcomes = [false, true, false];
    let mut i: usize = 0;
    while let Some(p) = w.current() {
        attempted.push(p);
        w.record(outcomes[i]);
        i += 1;
    }
    assert_eq!(
        attempted,
        vec!["p0".to_string(), "p1".to_string(), "p2".to_string()]
    );
    assert_eq!(w.failures, vec!["p0".to_string(), "p2".to_string()]);
}

#[test]
fn update_with_no_failures_records_none() {
    let projects = vec!["a".to_string(), "b".to_string()];
    let mut w = UpdateRun::new(projects);
    while let Some(_p) = w.current() {
        w.record(true);
    }
    assert!(w.failures.is_empty());
    assert_eq!(w.pos, 2);
}

#[test]
fn update_on_empty_list_is_complete_at_once() {
    let w = UpdateRun::new(Vec::new());
    assert!(w.current().is_none());
    assert!(w.failures.is_empty());
}

#[test]
fn show_competitors_lists_selection_in_order() {
    let cfg = Config {
        selected_projects: vec!["one".to_string(), "two".to_string()],
        api_key: None,
    };
    let lines = show_competitors(&cfg);
    assert_eq!(lines, vec!["one".to_string(), "two".to_string()]);
}

#[test]
fn show_competitors_of_empty_selection_is_empty() {
    let cfg = Config {
        selected_projects: Vec::new(),
        api_key: Some("credential".to_string()),
    };
    assert!(show_competitors(&cfg).is_empty());
}
