use concerto_validator_rs::report::ValidationReport;

#[test]
fn report_counts_and_exit_code() {
    let mut report = ValidationReport::new();
    assert!(!report.has_errors());
    assert_eq!(report.exit_code(), 0);
    report.add_success();
    report.add_error("a.json".to_string(), "Unknown class: x".to_string());
    report.add_success();
    assert_eq!(report.total_files(), 3);
    assert_eq!(report.successful(), 2);
    assert_eq!(report.failed(), 1);
    assert!(report.has_errors());
    assert_eq!(report.exit_code(), 1);
    assert_eq!(report.errors()[0].0, "a.json");
    assert_eq!(report.errors()[0].1, "Unknown class: x");
}
