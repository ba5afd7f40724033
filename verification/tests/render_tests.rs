use solguard::render::format_report;
use solguard::render::parse_format;
use solguard::render::OutputFormat;
use solguard::text::split_lines;
use solguard::text::str_contains;
use solguard::text::str_eq;
use solguard::text::usize_to_string;
use solguard::types::AnalysisReport;
use solguard::types::Location;
use solguard::types::Severity;
use solguard::types::Suggestion;
use solguard::types::Vulnerability;
use solguard::types::Warning;

#[test]
fn severity_names() {
    assert_eq!(Severity::Critical.as_str(), "Critical");
    assert_eq!(Severity::High.as_str(), "High");
    assert_eq!(Severity::Medium.as_str(), "Medium");
    assert_eq!(Severity::Low.as_str(), "Low");
    assert_eq!(Severity::Info.as_str(), "Info");
}

#[test]
fn format_selector_accepts_the_two_formats_only() {
    assert_eq!(parse_format("text"), Some(OutputFormat::Text));
    assert_eq!(parse_format("json"), Some(OutputFormat::Json));
    assert_eq!(parse_format("xml"), None);
    assert_eq!(parse_format(""), None);
    assert_eq!(parse_format("TEXT"), None);
}

#[test]
fn empty_report_renders_empty() {
    let report = AnalysisReport {
        vulnerabilities: Vec::new(),
        warnings: Vec::new(),
        suggestions: Vec::new(),
    };
    assert_eq!(format_report(&report), "");
}

#[test]
fn full_report_renders_every_section() {
    let report = AnalysisReport {
        vulnerabilities: vec![Vulnerability {
            severity: Severity::High,
            title: "Missing Owner Check".to_string(),
            description: "Account ownership is not verified in function spend".to_string(),
            location: Location { file: "a.rs".to_string(), line: 3, column: 1 },
            recommendation: "Check the owner".to_string(),
        }],
        warnings: vec![Warning {
            title: "file skipped: parse error".to_string(),
            description: "unbalanced braces in source".to_string(),
            location: Location { file: "b.rs".to_string(), line: 1, column: 1 },
        }],
        suggestions: vec![Suggestion {
            title: "tidy".to_string(),
            description: "shorten this".to_string(),
            location: Location { file: "c.rs".to_string(), line: 12, column: 4 },
        }],
    };
    let expected = "\nVulnerabilities:\n\
                    \n[High] Missing Owner Check\n\
                    Location: a.rs:3\n\
                    Description: Account ownership is not verified in function spend\n\
                    Recommendation: Check the owner\n\
                    \nWarnings:\n\
                    \nfile skipped: parse error\n\
                    Location: b.rs:1\n\
                    Description: unbalanced braces in source\n\
                    \nSuggestions:\n\
                    \ntidy\n\
                    Location: c.rs:12\n\
                    Description: shorten this\n";
    assert_eq!(format_report(&report), expected);
}

#[test]
fn decimal_rendering() {
    assert_eq!(usize_to_string(0), "0");
    assert_eq!(usize_to_string(7), "7");
    assert_eq!(usize_to_string(10), "10");
    assert_eq!(usize_to_string(12345), "12345");
}

#[test]
fn substring_search() {
    assert!(str_contains("account.owner == pid", ".owner"));
    assert!(str_contains("abc", ""));
    assert!(!str_contains("account", "owner"));
    assert!(!str_contains("ab", "abc"));
}

#[test]
fn string_equality() {
    assert!(str_eq("abc", "abc"));
    assert!(!str_eq("abc", "abd"));
    assert!(!str_eq("abc", "ab"));
    assert!(str_eq("", ""));
}

#[test]
fn line_splitting() {
    assert_eq!(split_lines(""), Vec::<String>::new());
    assert_eq!(split_lines("a"), vec!["a".to_string()]);
    assert_eq!(split_lines("a\nb"), vec!["a".to_string(), "b".to_string()]);
    assert_eq!(split_lines("a\n"), vec!["a".to_string()]);
    assert_eq!(split_lines("\nb"), vec!["".to_string(), "b".to_string()]);
}

#[test]
fn line_splitting_drops_carriage_return_before_newline() {
    // exactly what the standard line iterator yields
    assert_eq!(split_lines("a\r\nb"), "a\r\nb".lines().map(str::to_string).collect::<Vec<_>>());
    assert_eq!(split_lines("a\r\nb"), vec!["a".to_string(), "b".to_string()]);
    assert_eq!(split_lines("a\r\n"), vec!["a".to_string()]);
    assert_eq!(split_lines("\r\nb"), vec!["".to_string(), "b".to_string()]);
    // a return not followed by a newline stays, as the iterator keeps it
    assert_eq!(split_lines("a\rb"), vec!["a\rb".to_string()]);
    assert_eq!(split_lines("a\r"), vec!["a\r".to_string()]);
}
