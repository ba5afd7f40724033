use solguard::ci::run_analysis;
use solguard::ci::CiSummary;
use solguard::types::AnalysisReport;
use solguard::types::Location;
use solguard::types::Severity;
use solguard::types::Vulnerability;

fn vuln(severity: Severity) -> Vulnerability {
    Vulnerability {
        severity,
        title: "finding".to_string(),
        description: "a finding".to_string(),
        location: Location { file: "f.rs".to_string(), line: 1, column: 1 },
        recommendation: "fix it".to_string(),
    }
}

fn report(sevs: &[Severity]) -> AnalysisReport {
    AnalysisReport {
        vulnerabilities: sevs.iter().map(|s| vuln(*s)).collect(),
        warnings: Vec::new(),
        suggestions: Vec::new(),
    }
}

#[test]
fn severity_counting_two_critical_one_high_three_medium() {
    let rep = report(&[
        Severity::Critical,
        Severity::Critical,
        Severity::High,
        Severity::Medium,
        Severity::Medium,
        Severity::Medium,
    ]);
    let summary = CiSummary::from_report(&rep);
    assert_eq!(summary.total_issues, 6);
    assert_eq!(summary.critical_issues, 2);
    assert_eq!(summary.high_issues, 1);
    assert_eq!(summary.medium_issues, 3);
    assert_eq!(summary.low_issues, 0);
    assert_eq!(summary.info_issues, 0);
    let result = run_analysis(vec![rep]);
    assert!(!result.success);
    assert_eq!(result.summary.as_ref().unwrap().total_issues, 6);
    assert_eq!(
        result.message,
        "Security analysis failed: 2 critical, 1 high, 3 medium, 0 low, 0 info issues found"
    );
}

#[test]
fn run_passes_without_critical_or_high() {
    let rep = report(&[Severity::Medium, Severity::Low, Severity::Info]);
    let result = run_analysis(vec![rep]);
    assert!(result.success);
    assert_eq!(result.message, "Security analysis passed");
    let summary = result.summary.unwrap();
    assert_eq!(summary.total_issues, 3);
    assert_eq!(summary.medium_issues, 1);
    assert_eq!(summary.low_issues, 1);
    assert_eq!(summary.info_issues, 1);
}

#[test]
fn run_merges_reports_in_order() {
    let first = report(&[Severity::High]);
    let second = report(&[Severity::Low, Severity::Info]);
    let result = run_analysis(vec![first, second]);
    assert!(!result.success);
    let merged = result.report.unwrap();
    assert_eq!(merged.vulnerabilities.len(), 3);
    assert!(matches!(merged.vulnerabilities[0].severity, Severity::High));
    assert!(matches!(merged.vulnerabilities[1].severity, Severity::Low));
    assert!(matches!(merged.vulnerabilities[2].severity, Severity::Info));
    assert_eq!(merged.warnings.len(), 0);
}

#[test]
fn run_on_no_reports_passes() {
    let result = run_analysis(Vec::new());
    assert!(result.success);
    assert_eq!(result.summary.unwrap().total_issues, 0);
}

#[test]
fn double_digit_counts_render_in_message() {
    let sevs: Vec<Severity> = (0..12).map(|_| Severity::Critical).collect();
    let result = run_analysis(vec![report(&sevs)]);
    assert_eq!(
        result.message,
        "Security analysis failed: 12 critical, 0 high, 0 medium, 0 low, 0 info issues found"
    );
}
