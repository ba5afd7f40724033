use solguard::builder::parse_source;
use solguard::rules::custom::CustomRule;
use solguard::rules::custom::CustomRuleEngine;
use solguard::rules::custom::RuleSeverity;

fn rule(id: &str, pattern: &str, enabled: bool) -> CustomRule {
    CustomRule {
        id: id.to_string(),
        name: format!("rule {}", id),
        description: "a test rule".to_string(),
        severity: RuleSeverity::High,
        pattern: pattern.to_string(),
        message: "matched".to_string(),
        enabled,
        created_by: "operator".to_string(),
        created_at: 1_700_000_000,
        updated_at: 1_700_000_000,
    }
}

#[test]
fn unsafe_block_rule_fires_once_on_line_two() {
    let mut engine = CustomRuleEngine::new();
    engine.add_rule(rule("r1", "unsafe\\s*\\{", true)).unwrap();
    let matches = engine.analyze_file("f.rs", "let x = 1;\nunsafe { raw(); }");
    assert_eq!(matches.len(), 1);
    assert_eq!(matches[0].line, 2);
    assert_eq!(matches[0].column, 1);
    assert_eq!(matches[0].rule_id, "r1");
    assert_eq!(matches[0].context, "unsafe { raw(); }");
    assert!(matches!(matches[0].severity, RuleSeverity::High));
    assert_eq!(matches[0].file_path, "f.rs");
    assert_eq!(matches[0].message, "matched");
}

#[test]
fn match_column_is_leftmost_match_position() {
    let mut engine = CustomRuleEngine::new();
    engine.add_rule(rule("r1", "b+c", true)).unwrap();
    let matches = engine.analyze_file("f.rs", "aabbbc tail");
    assert_eq!(matches.len(), 1);
    assert_eq!(matches[0].line, 1);
    assert_eq!(matches[0].column, 3);
}

#[test]
fn rule_fires_at_most_once_per_line() {
    let mut engine = CustomRuleEngine::new();
    engine.add_rule(rule("r1", "x", true)).unwrap();
    let matches = engine.analyze_file("f.rs", "x x x\nplain");
    assert_eq!(matches.len(), 1);
    assert_eq!(matches[0].line, 1);
    assert_eq!(matches[0].column, 1);
}

#[test]
fn add_then_remove_round_trip() {
    let mut engine = CustomRuleEngine::new();
    let r = rule("r1", "abc", true);
    engine.add_rule(r.clone()).unwrap();
    assert_eq!(engine.analyze_file("f.rs", "xxabcxx").len(), 1);
    engine.remove_rule("r1");
    assert_eq!(engine.analyze_file("f.rs", "xxabcxx").len(), 0);
    // re-adding the same id after removal succeeds
    engine.add_rule(r).unwrap();
    assert_eq!(engine.analyze_file("f.rs", "xxabcxx").len(), 1);
}

#[test]
fn removing_absent_id_changes_nothing() {
    let mut engine = CustomRuleEngine::new();
    engine.add_rule(rule("r1", "abc", true)).unwrap();
    engine.remove_rule("other");
    assert_eq!(engine.analyze_file("f.rs", "abc").len(), 1);
}

#[test]
fn add_with_same_id_overwrites() {
    let mut engine = CustomRuleEngine::new();
    engine.add_rule(rule("r1", "abc", true)).unwrap();
    engine.add_rule(rule("r1", "zzz", true)).unwrap();
    assert_eq!(engine.analyze_file("f.rs", "abc").len(), 0);
    assert_eq!(engine.analyze_file("f.rs", "zzz").len(), 1);
}

#[test]
fn invalid_pattern_is_rejected_with_message() {
    let mut engine = CustomRuleEngine::new();
    let err = engine.add_rule(rule("r1", "[", true)).unwrap_err();
    assert_eq!(err, "invalid pattern: [");
    assert_eq!(engine.analyze_file("f.rs", "anything [").len(), 0);
}

#[test]
fn update_with_invalid_pattern_keeps_previous_rule() {
    let mut engine = CustomRuleEngine::new();
    engine.add_rule(rule("r1", "abc", true)).unwrap();
    let err = engine.update_rule(rule("r1", "[", true));
    assert!(err.is_err());
    // the previously registered rule is intact: no partial update
    assert_eq!(engine.analyze_file("f.rs", "abc").len(), 1);
}

#[test]
fn update_with_valid_pattern_replaces_rule() {
    let mut engine = CustomRuleEngine::new();
    engine.add_rule(rule("r1", "abc", true)).unwrap();
    engine.update_rule(rule("r1", "def", true)).unwrap();
    assert_eq!(engine.analyze_file("f.rs", "abc").len(), 0);
    assert_eq!(engine.analyze_file("f.rs", "def").len(), 1);
}

#[test]
fn disabled_rule_is_retained_but_silent() {
    let mut engine = CustomRuleEngine::new();
    engine.add_rule(rule("r1", "abc", false)).unwrap();
    assert_eq!(engine.analyze_file("f.rs", "abc").len(), 0);
    // re-enabling by update restores it without losing configuration
    engine.update_rule(rule("r1", "abc", true)).unwrap();
    assert_eq!(engine.analyze_file("f.rs", "abc").len(), 1);
}

#[test]
fn tree_scan_matches_attribute_first() {
    let t = parse_source("t.rs", "#[account(init)]\nfn setup(a: u8) { body(); }\n").unwrap();
    let mut engine = CustomRuleEngine::new();
    engine.add_rule(rule("r1", "account\\(init\\)", true)).unwrap();
    let matches = engine.analyze_ast(&t);
    assert_eq!(matches.len(), 1);
    assert_eq!(matches[0].line, 1);
    assert_eq!(matches[0].context, "#[account(init)]");
    assert_eq!(matches[0].file_path, "t.rs");
}

#[test]
fn tree_scan_falls_back_to_signature() {
    let t = parse_source("t.rs", "#[inline]\nfn transfer(amount: u64) { body(); }\n").unwrap();
    let mut engine = CustomRuleEngine::new();
    engine.add_rule(rule("r1", "fn transfer", true)).unwrap();
    let matches = engine.analyze_ast(&t);
    assert_eq!(matches.len(), 1);
    assert_eq!(matches[0].line, 2);
    assert_eq!(matches[0].context, "fn transfer(amount: u64)");
}

#[test]
fn attribute_match_short_circuits_signature() {
    // the pattern matches the attribute and the signature; only the
    // attribute match is emitted
    let t = parse_source("t.rs", "#[transfer]\nfn transfer(amount: u64) { body(); }\n").unwrap();
    let mut engine = CustomRuleEngine::new();
    engine.add_rule(rule("r1", "transfer", true)).unwrap();
    let matches = engine.analyze_ast(&t);
    assert_eq!(matches.len(), 1);
    assert_eq!(matches[0].line, 1);
    assert_eq!(matches[0].context, "#[transfer]");
}

#[test]
fn tree_scan_skips_disabled_rules() {
    let t = parse_source("t.rs", "fn transfer(amount: u64) { body(); }\n").unwrap();
    let mut engine = CustomRuleEngine::new();
    engine.add_rule(rule("r1", "transfer", false)).unwrap();
    assert_eq!(engine.analyze_ast(&t).len(), 0);
}

#[test]
fn end_anchored_pattern_matches_on_crlf_lines() {
    // the scanned line carries no trailing carriage return, so a
    // pattern anchored at line end still matches on CRLF sources
    let mut engine = CustomRuleEngine::new();
    engine.add_rule(rule("r1", "x$", true)).unwrap();
    let matches = engine.analyze_file("f.rs", "ax\r\nb");
    assert_eq!(matches.len(), 1);
    assert_eq!(matches[0].line, 1);
    assert_eq!(matches[0].column, 2);
    assert_eq!(matches[0].context, "ax");
}

#[test]
fn rules_scan_text_in_registration_order() {
    let mut engine = CustomRuleEngine::new();
    engine.add_rule(rule("first", "aa", true)).unwrap();
    engine.add_rule(rule("second", "bb", true)).unwrap();
    let matches = engine.analyze_file("f.rs", "bb\naa");
    assert_eq!(matches.len(), 2);
    assert_eq!(matches[0].rule_id, "first");
    assert_eq!(matches[0].line, 2);
    assert_eq!(matches[1].rule_id, "second");
    assert_eq!(matches[1].line, 1);
}
