//! The built-in security rule catalog and its dispatcher.
//!
//! Each rule scans the function declarations of one syntax tree for a
//! known unsafe shape and reports findings with real source positions.
//! The rules are independent and order-insensitive; the dispatcher's
//! output is the concatenation of all rules' findings.

use vstd::prelude::*;

pub mod arithmetic;
pub mod custom;
pub mod cpi;
pub mod initialization;
pub mod ownership;
pub mod pda;
pub mod sysvar;

verus! {

use crate::text::contains_seq;
use crate::text::str_contains;
use crate::tree::FnDecl;
use crate::tree::FnDeclV;
use crate::tree::ParamV;
use crate::types::Location;
use crate::types::LocationV;
use crate::types::Severity;
use crate::types::Vulnerability;
use crate::types::VulnerabilityV;
use vstd::string::StringExecFns;

/// A parameter whose type names an account reference.
pub open spec fn param_is_account(p: ParamV) -> bool {
    contains_seq(p.ty, "AccountInfo"@)
}

/// The function takes at least one account-reference parameter.
pub open spec fn takes_account(f: FnDeclV) -> bool {
    exists|i: int| 0 <= i < f.params.len() && param_is_account(#[trigger] f.params[i])
}

/// Some statement of the body contains the needle.
pub open spec fn has_stmt_with(f: FnDeclV, needle: Seq<char>) -> bool {
    exists|i: int|
        0 <= i < f.stmts.len() && contains_seq((#[trigger] f.stmts[i]).text, needle)
}

/// Some statement of the body contains both needles.
pub open spec fn has_stmt_with2(f: FnDeclV, a: Seq<char>, b: Seq<char>) -> bool {
    exists|i: int|
        0 <= i < f.stmts.len() && contains_seq((#[trigger] f.stmts[i]).text, a) && contains_seq(
            f.stmts[i].text,
            b,
        )
}

/// Decide `takes_account` for a declaration.
pub fn takes_account_exec(f: &FnDecl) -> (r: bool)
    ensures
        r == takes_account(f@),
{
    let n = f.params.len();
    let mut i: usize = 0;
    while i < n
        invariant
            n == f.params@.len(),
            0 <= i <= n,
            forall|k: int| 0 <= k < i ==> !param_is_account(#[trigger] f@.params[k]),
        decreases n - i,
    {
        if str_contains(f.params[i].ty.as_str(), "AccountInfo") {
            assert(param_is_account(f@.params[i as int]));
            return true;
        }
        i = i + 1;
    }
    false
}

/// Decide `has_stmt_with` for a declaration.
pub fn any_stmt_contains(f: &FnDecl, needle: &str) -> (r: bool)
    ensures
        r == has_stmt_with(f@, needle@),
{
    let n = f.stmts.len();
    let mut i: usize = 0;
    while i < n
        invariant
            n == f.stmts@.len(),
            0 <= i <= n,
            forall|k: int| 0 <= k < i ==> !contains_seq((#[trigger] f@.stmts[k]).text, needle@),
        decreases n - i,
    {
        if str_contains(f.stmts[i].text.as_str(), needle) {
            assert(contains_seq(f@.stmts[i as int].text, needle@));
            return true;
        }
        i = i + 1;
    }
    false
}

/// Decide `has_stmt_with2` for a declaration.
pub fn any_stmt_contains2(f: &FnDecl, a: &str, b: &str) -> (r: bool)
    ensures
        r == has_stmt_with2(f@, a@, b@),
{
    let n = f.stmts.len();
    let mut i: usize = 0;
    while i < n
        invariant
            n == f.stmts@.len(),
            0 <= i <= n,
            forall|k: int|
                0 <= k < i ==> !(contains_seq((#[trigger] f@.stmts[k]).text, a@) && contains_seq(
                    f@.stmts[k].text,
                    b@,
                )),
        decreases n - i,
    {
        if str_contains(f.stmts[i].text.as_str(), a) && str_contains(f.stmts[i].text.as_str(), b) {
            assert(contains_seq(f@.stmts[i as int].text, a@) && contains_seq(
                f@.stmts[i as int].text,
                b@,
            ));
            return true;
        }
        i = i + 1;
    }
    false
}

/// Build a finding whose description is a fixed prefix followed by the
/// function's name.
pub fn make_finding(
    severity: Severity,
    title: &str,
    desc_prefix: &str,
    fname: &str,
    file: &str,
    line: usize,
    column: usize,
    recommendation: &str,
) -> (v: Vulnerability)
    ensures
        v@ == (VulnerabilityV {
            severity,
            title: title@,
            description: desc_prefix@ + fname@,
            location: LocationV { file: file@, line: line as int, column: column as int },
            recommendation: recommendation@,
        }),
{
    let mut description = desc_prefix.to_owned();
    description.append(fname);
    Vulnerability {
        severity,
        title: title.to_owned(),
        description,
        location: Location { file: file.to_owned(), line, column },
        recommendation: recommendation.to_owned(),
    }
}

/// Everything the built-in catalog reports on one tree: the
/// concatenation of all seven rules' findings, in catalog order.
pub open spec fn all_findings(t: crate::tree::SyntaxTreeV) -> Seq<VulnerabilityV> {
    ownership::owner_findings(t) + ownership::signer_findings(t) + pda::pda_findings(t)
        + sysvar::sysvar_findings(t) + arithmetic::arith_findings(t) + cpi::cpi_findings(t)
        + initialization::reinit_findings(t)
}

/// On a tree none of whose functions takes an account-reference
/// parameter, the owner and signer rules emit nothing: the catalog's
/// whole output is what the other five rules report. No account in
/// scope means no missing-owner and no missing-signer finding.
pub proof fn lemma_no_account_no_ownership_findings(t: crate::tree::SyntaxTreeV)
    requires
        forall|i: int| 0 <= i < t.functions.len() ==> !takes_account(#[trigger] t.functions[i]),
    ensures
        ownership::owner_findings(t) =~= Seq::<VulnerabilityV>::empty(),
        ownership::signer_findings(t) =~= Seq::<VulnerabilityV>::empty(),
        all_findings(t) =~= pda::pda_findings(t) + sysvar::sysvar_findings(t)
            + arithmetic::arith_findings(t) + cpi::cpi_findings(t)
            + initialization::reinit_findings(t),
{
    assert(forall|k: int|
        0 <= k < t.functions.len() ==> ownership::owner_flag(t.file, #[trigger] t.functions[k])
            is None);
    assert(forall|k: int|
        0 <= k < t.functions.len() ==> ownership::signer_flag(t.file, #[trigger] t.functions[k])
            is None);
    ownership::lemma_owner_findings_empty(t.file, t.functions, 0);
    ownership::lemma_signer_findings_empty(t.file, t.functions, 0);
}

/// A function whose body compares an owner field is never flagged by
/// the owner rule; a tree in which every account-taking function holds
/// such a comparison draws no owner finding at all.
pub proof fn lemma_owner_check_suppresses_finding(t: crate::tree::SyntaxTreeV)
    requires
        forall|i: int|
            0 <= i < t.functions.len() ==> (takes_account(#[trigger] t.functions[i])
                ==> ownership::has_owner_check(t.functions[i])),
    ensures
        forall|i: int|
            0 <= i < t.functions.len() ==> ownership::owner_flag(
                t.file,
                #[trigger] t.functions[i],
            ) is None,
        ownership::owner_findings(t) =~= Seq::<VulnerabilityV>::empty(),
{
    assert(forall|k: int|
        0 <= k < t.functions.len() ==> ownership::owner_flag(t.file, #[trigger] t.functions[k])
            is None);
    ownership::lemma_owner_findings_empty(t.file, t.functions, 0);
}

/// The fixed catalog of built-in rules.
pub struct RuleSet {
    pub owner: ownership::MissingOwnerCheck,
    pub signer: ownership::MissingSignerCheck,
    pub pda: pda::PdaValidationError,
    pub sysvar: sysvar::SysvarSpoofing,
    pub arithmetic: arithmetic::UncheckedArithmetic,
    pub cpi: cpi::ArbitraryCpi,
    pub initialization: initialization::Reinitialization,
}

impl RuleSet {
    /// Build the catalog with its seven rules under their catalogued
    /// names, descriptions and severities.
    pub fn new() -> (r: Self)
        ensures
            r.owner.name@ == "Missing Owner Check"@,
            r.owner.description@ == "Account ownership is not verified before use"@,
            r.owner.severity == Severity::High,
            r.signer.name@ == "Missing Signer Check"@,
            r.signer.description@ == "Account signer status is not verified before use"@,
            r.signer.severity == Severity::High,
            r.pda.name@ == "PDA Validation Error"@,
            r.pda.description@ == "Program-derived address is not validated by re-derivation"@,
            r.pda.severity == Severity::High,
            r.sysvar.name@ == "Sysvar Spoofing"@,
            r.sysvar.description@ == "System variable is read from a caller-supplied account"@,
            r.sysvar.severity == Severity::Medium,
            r.arithmetic.name@ == "Unchecked Arithmetic"@,
            r.arithmetic.description@ == "Balance arithmetic is not overflow-checked"@,
            r.arithmetic.severity == Severity::Medium,
            r.cpi.name@ == "Arbitrary CPI"@,
            r.cpi.description@ == "Cross-program invocation target is not validated"@,
            r.cpi.severity == Severity::High,
            r.initialization.name@ == "Reinitialization"@,
            r.initialization.description@ == "Account state can be initialized again"@,
            r.initialization.severity == Severity::Medium,
    {
        RuleSet {
            owner: ownership::MissingOwnerCheck::new(),
            signer: ownership::MissingSignerCheck::new(),
            pda: pda::PdaValidationError::new(),
            sysvar: sysvar::SysvarSpoofing::new(),
            arithmetic: arithmetic::UncheckedArithmetic::new(),
            cpi: cpi::ArbitraryCpi::new(),
            initialization: initialization::Reinitialization::new(),
        }
    }

    /// Run every rule over the tree and aggregate the findings, with no
    /// deduplication across rules.
    pub fn analyze(&self, tree: &crate::tree::SyntaxTree) -> (r: Vec<Vulnerability>)
        ensures
            r@.map_values(|v: Vulnerability| v@) == all_findings(tree@),
            tree@.wf() ==> forall|i: int| 0 <= i < r@.len() ==> (#[trigger] r@[i]@).wf(),
    {
        let mut out = self.owner.analyze(tree);
        let mut more = self.signer.analyze(tree);
        out.append(&mut more);
        let mut more = self.pda.analyze(tree);
        out.append(&mut more);
        let mut more = self.sysvar.analyze(tree);
        out.append(&mut more);
        let mut more = self.arithmetic.analyze(tree);
        out.append(&mut more);
        let mut more = self.cpi.analyze(tree);
        out.append(&mut more);
        let mut more = self.initialization.analyze(tree);
        out.append(&mut more);
        proof {
            assert(out@.map_values(|v: Vulnerability| v@) =~= all_findings(tree@));
        }
        out
    }
}

} // verus!
