use solguard::analyzer::Analyzer;
use solguard::analyzer::SourceFile;
use solguard::SolGuard;

fn file(path: &str, content: &str) -> SourceFile {
    SourceFile { path: path.to_string(), content: content.to_string() }
}

#[test]
fn analyze_file_returns_error_on_parse_failure() {
    let analyzer = Analyzer::new();
    let err = analyzer.analyze_file("broken.rs", "fn f() {").unwrap_err();
    assert_eq!(err.file, "broken.rs");
}

#[test]
fn analyze_file_on_clean_source_is_empty() {
    let analyzer = Analyzer::new();
    let report = analyzer.analyze_file("clean.rs", "fn tally(x: u64) { let y = x; }").unwrap();
    assert_eq!(report.vulnerabilities.len(), 0);
    assert_eq!(report.warnings.len(), 0);
    assert_eq!(report.suggestions.len(), 0);
}

#[test]
fn directory_scan_isolates_parse_failures() {
    // three files, the middle one fails to parse: findings for the
    // other two, one warning for the failing file
    let files = vec![
        file("a.rs", "fn withdraw(account: AccountInfo) { account.use_it(); }"),
        file("b.rs", "fn broken() {"),
        file("c.rs", "fn pay(account: AccountInfo) { account.lamports -= amount; }"),
    ];
    let analyzer = Analyzer::new();
    let report = analyzer.analyze_directory(&files);
    assert_eq!(report.warnings.len(), 1);
    assert_eq!(report.warnings[0].title, "file skipped: parse error");
    assert_eq!(report.warnings[0].location.file, "b.rs");
    assert_eq!(report.warnings[0].location.line, 1);
    // a.rs yields owner+signer, c.rs yields owner+signer+arithmetic
    assert_eq!(report.vulnerabilities.len(), 5);
    assert!(report.vulnerabilities.iter().any(|v| v.location.file == "a.rs"));
    assert!(report.vulnerabilities.iter().any(|v| v.location.file == "c.rs"));
    assert!(report.vulnerabilities.iter().all(|v| v.location.file != "b.rs"));
}

#[test]
fn directory_scan_of_empty_list_is_empty() {
    let analyzer = Analyzer::new();
    let report = analyzer.analyze_directory(&Vec::new());
    assert_eq!(report.vulnerabilities.len(), 0);
    assert_eq!(report.warnings.len(), 0);
}

#[test]
fn solguard_analyze_program_matches_directory_scan() {
    let files = vec![file("a.rs", "fn pay(account: AccountInfo) { account.lamports -= x; }")];
    let guard = SolGuard::new();
    let report = guard.analyze_program(&files);
    assert_eq!(report.vulnerabilities.len(), 3);
    assert_eq!(report.warnings.len(), 0);
}
