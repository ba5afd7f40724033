use solguard::analyzer::Analyzer;
use solguard::builder::parse_source;
use solguard::rules::arithmetic::UncheckedArithmetic;
use solguard::rules::cpi::ArbitraryCpi;
use solguard::rules::initialization::Reinitialization;
use solguard::rules::ownership::MissingOwnerCheck;
use solguard::rules::ownership::MissingSignerCheck;
use solguard::rules::pda::PdaValidationError;
use solguard::rules::sysvar::SysvarSpoofing;
use solguard::types::Severity;

#[test]
fn withdraw_without_checks_yields_owner_signer_and_arithmetic() {
    let src = "fn withdraw(account: AccountInfo) { account.lamports -= amount; }";
    let analyzer = Analyzer::new();
    let report = analyzer.analyze_file("w.rs", src).unwrap();
    assert_eq!(report.vulnerabilities.len(), 3);
    let titles: Vec<&str> = report.vulnerabilities.iter().map(|v| v.title.as_str()).collect();
    assert!(titles.contains(&"Missing Owner Check"));
    assert!(titles.contains(&"Missing Signer Check"));
    assert!(titles.contains(&"Unchecked Arithmetic"));
    for v in &report.vulnerabilities {
        assert_eq!(v.location.file, "w.rs");
        assert_eq!(v.location.line, 1);
        match v.title.as_str() {
            "Missing Owner Check" => assert!(matches!(v.severity, Severity::High)),
            "Missing Signer Check" => assert!(matches!(v.severity, Severity::High)),
            "Unchecked Arithmetic" => {
                assert!(matches!(v.severity, Severity::Medium));
                let expected_col = src.find("account.lamports").unwrap() + 1;
                assert_eq!(v.location.column, expected_col);
            }
            other => panic!("unexpected finding {}", other),
        }
    }
}

#[test]
fn no_account_parameters_no_ownership_findings() {
    let src = "fn pure_math(x: u64) { let y = x; }";
    let rule = MissingOwnerCheck::new();
    let signer = MissingSignerCheck::new();
    let t = parse_source("m.rs", src).unwrap();
    assert_eq!(rule.analyze(&t).len(), 0);
    assert_eq!(signer.analyze(&t).len(), 0);
}

#[test]
fn owner_check_present_suppresses_owner_finding() {
    let src = "fn spend(account: AccountInfo) { let ok = account.owner == program_id; \
               account.key();\n}";
    let rule = MissingOwnerCheck::new();
    let t = parse_source("s.rs", src).unwrap();
    let found = rule.analyze(&t);
    assert_eq!(found.len(), 0);
}

#[test]
fn owner_check_missing_fires_with_function_name() {
    let src = "fn spend(account: AccountInfo) { account.key();\n}";
    let rule = MissingOwnerCheck::new();
    let t = parse_source("s.rs", src).unwrap();
    let found = rule.analyze(&t);
    assert_eq!(found.len(), 1);
    assert_eq!(found[0].description, "Account ownership is not verified in function spend");
}

#[test]
fn signer_check_present_suppresses_signer_finding() {
    let src = "fn spend(account: AccountInfo) { if !account.is_signer { return; }\naccount.use_it();\n}";
    let rule = MissingSignerCheck::new();
    let t = parse_source("s.rs", src).unwrap();
    assert_eq!(rule.analyze(&t).len(), 0);
}

#[test]
fn pda_rule_fires_on_unvalidated_derivation() {
    let src = "fn derive(seed: u8) { let a = Pubkey::create_program_address(seeds, pid); }";
    let rule = PdaValidationError::new();
    let t = parse_source("p.rs", src).unwrap();
    let found = rule.analyze(&t);
    assert_eq!(found.len(), 1);
    assert_eq!(found[0].title, "PDA Validation Error");
    assert!(matches!(found[0].severity, Severity::High));
}

#[test]
fn pda_rule_quiet_when_rederived() {
    let src = "fn derive(seed: u8) { let a = Pubkey::create_program_address(seeds, pid); \
               let (e, b) = Pubkey::find_program_address(seeds, pid); }";
    let rule = PdaValidationError::new();
    let t = parse_source("p.rs", src).unwrap();
    assert_eq!(rule.analyze(&t).len(), 0);
}

#[test]
fn sysvar_rule_fires_on_account_sourced_clock() {
    let src = "fn read(ai: u8) { let clock = Clock::from_account_info(acc); }";
    let rule = SysvarSpoofing::new();
    let t = parse_source("c.rs", src).unwrap();
    let found = rule.analyze(&t);
    assert_eq!(found.len(), 1);
    assert_eq!(found[0].title, "Sysvar Spoofing");
    assert!(matches!(found[0].severity, Severity::Medium));
}

#[test]
fn sysvar_rule_quiet_on_trusted_accessor() {
    let src = "fn read(ai: u8) { let clock = Clock::get(); }";
    let rule = SysvarSpoofing::new();
    let t = parse_source("c.rs", src).unwrap();
    assert_eq!(rule.analyze(&t).len(), 0);
}

#[test]
fn arithmetic_rule_quiet_on_checked_update() {
    let src = "fn pay(a: u8) { balance = balance.checked_sub(x).unwrap(); tally += 1; }";
    let rule = UncheckedArithmetic::new();
    let t = parse_source("a.rs", src).unwrap();
    // first statement is checked; second touches no balance field
    assert_eq!(rule.analyze(&t).len(), 0);
}

#[test]
fn cpi_rule_fires_on_unvalidated_invoke() {
    let src = "fn call(ix: u8) { invoke(ix, accounts)?; }";
    let rule = ArbitraryCpi::new();
    let t = parse_source("i.rs", src).unwrap();
    let found = rule.analyze(&t);
    assert_eq!(found.len(), 1);
    assert_eq!(found[0].title, "Arbitrary CPI");
}

#[test]
fn cpi_rule_quiet_with_program_id_check() {
    let src = "fn call(ix: u8) { assert!(target.program_id == EXPECTED); invoke(ix, accounts)?; }";
    let rule = ArbitraryCpi::new();
    let t = parse_source("i.rs", src).unwrap();
    assert_eq!(rule.analyze(&t).len(), 0);
}

#[test]
fn reinit_rule_fires_on_unguarded_initialize() {
    let src = "fn initialize(state: u8) { state.write_defaults(); }";
    let rule = Reinitialization::new();
    let t = parse_source("r.rs", src).unwrap();
    let found = rule.analyze(&t);
    assert_eq!(found.len(), 1);
    assert_eq!(found[0].title, "Reinitialization");
    assert!(matches!(found[0].severity, Severity::Medium));
}

#[test]
fn reinit_rule_quiet_with_initialized_check() {
    let src = "fn initialize(state: u8) { if state.is_initialized { return; }\nstate.write_defaults(); }";
    let rule = Reinitialization::new();
    let t = parse_source("r.rs", src).unwrap();
    assert_eq!(rule.analyze(&t).len(), 0);
}

#[test]
fn catalog_carries_the_catalogued_identities() {
    let catalog = solguard::rules::RuleSet::new();
    assert_eq!(catalog.owner.name(), "Missing Owner Check");
    assert!(matches!(catalog.owner.severity(), Severity::High));
    assert_eq!(catalog.signer.name(), "Missing Signer Check");
    assert!(matches!(catalog.signer.severity(), Severity::High));
    assert_eq!(catalog.pda.name(), "PDA Validation Error");
    assert!(matches!(catalog.pda.severity(), Severity::High));
    assert_eq!(catalog.sysvar.name(), "Sysvar Spoofing");
    assert!(matches!(catalog.sysvar.severity(), Severity::Medium));
    assert_eq!(catalog.arithmetic.name(), "Unchecked Arithmetic");
    assert!(matches!(catalog.arithmetic.severity(), Severity::Medium));
    assert_eq!(catalog.cpi.name(), "Arbitrary CPI");
    assert!(matches!(catalog.cpi.severity(), Severity::High));
    assert_eq!(catalog.initialization.name(), "Reinitialization");
    assert!(matches!(catalog.initialization.severity(), Severity::Medium));
}

#[test]
fn rule_identity_getters() {
    let rule = MissingOwnerCheck::new();
    assert_eq!(rule.name(), "Missing Owner Check");
    assert_eq!(rule.description(), "Account ownership is not verified before use");
    assert!(matches!(rule.severity(), Severity::High));
    let signer = MissingSignerCheck::new();
    assert_eq!(signer.name(), "Missing Signer Check");
}
