use winc::metrics::{Metric, Metrics};

#[test]
fn test_metrics_tracking() {
    let mut metrics = Metrics::new();

    metrics.begin("z first");
    metrics.end("z first");

    metrics.begin("a second");
    metrics.end("a second");

    let report = metrics.report();
    println!("{}", report);
    assert!(report.contains("z first"));
    assert!(report.contains("a second"));
}

#[test]
fn begin_then_end_records_a_covered_duration() {
    let mut metrics = Metrics::new();
    metrics.begin("x");
    metrics.end("x");

    let completed = metrics.completed();
    assert_eq!(completed.len(), 1);
    assert_eq!(completed[0].name, "x");
    let duration = completed[0].duration;
    assert!(metrics.total() >= duration as u128);
}

#[test]
fn end_of_a_name_never_begun_changes_nothing() {
    let mut metrics = Metrics::new();
    metrics.begin("real");
    metrics.end("real");
    let before = metrics.completed();
    metrics.end("never-begun");
    let after = metrics.completed();
    assert_eq!(before, after);
}

#[test]
fn disabled_metrics_report_names_no_interval() {
    let mut metrics = Metrics::default();
    metrics.begin("hidden");
    metrics.end("hidden");
    let report = metrics.report();
    assert_eq!(report, "Metrics disabled, nothing to report");
    assert!(!report.contains("hidden"));
    assert_eq!(metrics.total(), 0);
    assert!(metrics.completed().is_empty());
}

#[test]
fn report_of_fresh_metrics_shows_zero_total() {
    let metrics = Metrics::new();
    assert_eq!(metrics.report(), " | total 0ns");
}

#[test]
fn completed_intervals_keep_insertion_order() {
    let mut metrics = Metrics::new();
    metrics.begin("z");
    metrics.end("z");
    metrics.begin("a");
    metrics.end("a");
    let names: Vec<String> = metrics.completed().iter().map(|m: &Metric| m.name.clone()).collect();
    assert_eq!(names, vec!["z".to_string(), "a".to_string()]);
}

#[test]
fn beginning_twice_keeps_one_entry_for_the_name() {
    let mut metrics = Metrics::new();
    metrics.begin("x");
    metrics.begin("x");
    metrics.end("x");
    assert_eq!(metrics.completed().len(), 1);
    metrics.end("x");
    assert_eq!(metrics.completed().len(), 1);
}

#[test]
fn report_lists_intervals_and_total_in_nanoseconds() {
    let mut metrics = Metrics::new();
    metrics.begin("stage");
    metrics.end("stage");
    let report = metrics.report();
    assert!(report.starts_with("stage "));
    assert!(report.contains(" | total "));
    assert!(report.ends_with("ns"));
}
