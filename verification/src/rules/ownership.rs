//! Ownership rules: missing owner checks and missing signer checks on
//! functions that take an account reference.

use vstd::prelude::*;

verus! {

use crate::rules::any_stmt_contains;
use crate::rules::any_stmt_contains2;
use crate::rules::has_stmt_with;
use crate::rules::has_stmt_with2;
use crate::rules::make_finding;
use crate::rules::takes_account;
use crate::rules::takes_account_exec;
use crate::tree::FnDeclV;
use crate::tree::SyntaxTree;
use crate::tree::SyntaxTreeV;
use crate::types::LocationV;
use crate::types::Severity;
use crate::types::Vulnerability;
use crate::types::VulnerabilityV;

/// The body compares an account's owner field somewhere.
pub open spec fn has_owner_check(f: FnDeclV) -> bool {
    has_stmt_with2(f, ".owner"@, "=="@)
}

/// The body tests an account's transaction-signer flag somewhere.
pub open spec fn has_signer_check(f: FnDeclV) -> bool {
    has_stmt_with(f, ".is_signer"@)
}

/// The finding the owner rule raises for one declaration, if any: a
/// function taking an account reference whose body never compares an
/// owner field.
pub open spec fn owner_flag(file: Seq<char>, f: FnDeclV) -> Option<VulnerabilityV> {
    if takes_account(f) && !has_owner_check(f) {
        Some(
            VulnerabilityV {
                severity: Severity::High,
                title: "Missing Owner Check"@,
                description: "Account ownership is not verified in function "@ + f.name,
                location: LocationV { file, line: f.line, column: f.column },
                recommendation:
                    "Compare the account owner against the expected program id before use"@,
            },
        )
    } else {
        None
    }
}

/// The owner rule's findings for the declarations from index `i` on.
pub open spec fn owner_findings_from(file: Seq<char>, fns: Seq<FnDeclV>, i: int) -> Seq<
    VulnerabilityV,
>
    decreases fns.len() - i,
{
    if i < 0 || i >= fns.len() {
        Seq::empty()
    } else {
        (match owner_flag(file, fns[i]) {
            Some(v) => seq![v],
            None => Seq::empty(),
        }) + owner_findings_from(file, fns, i + 1)
    }
}

/// All findings of the owner rule on one tree.
pub open spec fn owner_findings(t: SyntaxTreeV) -> Seq<VulnerabilityV> {
    owner_findings_from(t.file, t.functions, 0)
}

/// Flags functions that use an account without verifying its owner.
/// The absence of the check is the signal, a conservative heuristic.
pub struct MissingOwnerCheck {
    pub name: &'static str,
    pub description: &'static str,
    pub severity: Severity,
}

impl MissingOwnerCheck {
    pub fn new() -> (r: Self)
        ensures
            r.name@ == "Missing Owner Check"@,
            r.description@ == "Account ownership is not verified before use"@,
            r.severity == Severity::High,
    {
        MissingOwnerCheck {
            name: "Missing Owner Check",
            description: "Account ownership is not verified before use",
            severity: Severity::High,
        }
    }

    pub fn name(&self) -> (r: &'static str)
        ensures
            r@ == self.name@,
    {
        self.name
    }

    pub fn description(&self) -> (r: &'static str)
        ensures
            r@ == self.description@,
    {
        self.description
    }

    pub fn severity(&self) -> (r: Severity)
        ensures
            r == self.severity,
    {
        self.severity
    }

    /// Scan a tree, reporting every account-taking function whose body
    /// holds no owner comparison.
    pub fn analyze(&self, tree: &SyntaxTree) -> (r: Vec<Vulnerability>)
        ensures
            r@.map_values(|v: Vulnerability| v@) == owner_findings(tree@),
            tree@.wf() ==> forall|i: int| 0 <= i < r@.len() ==> (#[trigger] r@[i]@).wf(),
    {
        let n = tree.functions.len();
        let mut out: Vec<Vulnerability> = Vec::new();
        let mut i: usize = 0;
        proof {
            assert(out@.map_values(|v: Vulnerability| v@) =~= Seq::<VulnerabilityV>::empty());
        }
        while i < n
            invariant
                n == tree.functions@.len(),
                0 <= i <= n,
                owner_findings(tree@) == out@.map_values(|v: Vulnerability| v@)
                    + owner_findings_from(tree@.file, tree@.functions, i as int),
                tree@.wf() ==> forall|k: int| 0 <= k < out@.len() ==> (#[trigger] out@[k]@).wf(),
            decreases n - i,
        {
            let f = &tree.functions[i];
            let ghost fv = tree@.functions[i as int];
            assert(fv == f@);
            let ghost old_map = out@.map_values(|v: Vulnerability| v@);
            if takes_account_exec(f) && !any_stmt_contains2(f, ".owner", "==") {
                let v = make_finding(
                    Severity::High,
                    "Missing Owner Check",
                    "Account ownership is not verified in function ",
                    f.name.as_str(),
                    tree.file.as_str(),
                    f.line,
                    f.column,
                    "Compare the account owner against the expected program id before use",
                );
                proof {
                    assert(owner_flag(tree@.file, fv) == Some(v@));
                }
                out.push(v);
                proof {
                    assert(out@.map_values(|q: Vulnerability| q@) =~= old_map + seq![v@]);
                }
            } else {
                proof {
                    assert(owner_flag(tree@.file, fv) is None);
                }
            }
            proof {
                assert(owner_findings_from(tree@.file, tree@.functions, i as int) == (match
                    owner_flag(tree@.file, fv) {
                    Some(v) => seq![v],
                    None => Seq::empty(),
                }) + owner_findings_from(tree@.file, tree@.functions, i + 1));
            }
            i = i + 1;
        }
        proof {
            assert(owner_findings_from(tree@.file, tree@.functions, i as int) =~= Seq::<
                VulnerabilityV,
            >::empty());
            assert(out@.map_values(|v: Vulnerability| v@) =~= out@.map_values(
                |v: Vulnerability| v@,
            ) + owner_findings_from(tree@.file, tree@.functions, i as int));
        }
        out
    }
}

/// The finding the signer rule raises for one declaration, if any.
pub open spec fn signer_flag(file: Seq<char>, f: FnDeclV) -> Option<VulnerabilityV> {
    if takes_account(f) && !has_signer_check(f) {
        Some(
            VulnerabilityV {
                severity: Severity::High,
                title: "Missing Signer Check"@,
                description: "Account signer status is not verified in function "@ + f.name,
                location: LocationV { file, line: f.line, column: f.column },
                recommendation:
                    "Require the authorizing account to be a transaction signer before changing state"@,
            },
        )
    } else {
        None
    }
}

/// The signer rule's findings for the declarations from index `i` on.
pub open spec fn signer_findings_from(file: Seq<char>, fns: Seq<FnDeclV>, i: int) -> Seq<
    VulnerabilityV,
>
    decreases fns.len() - i,
{
    if i < 0 || i >= fns.len() {
        Seq::empty()
    } else {
        (match signer_flag(file, fns[i]) {
            Some(v) => seq![v],
            None => Seq::empty(),
        }) + signer_findings_from(file, fns, i + 1)
    }
}

/// All findings of the signer rule on one tree.
pub open spec fn signer_findings(t: SyntaxTreeV) -> Seq<VulnerabilityV> {
    signer_findings_from(t.file, t.functions, 0)
}

/// Flags functions that use an account to authorize a change without
/// testing its transaction-signer flag.
pub struct MissingSignerCheck {
    pub name: &'static str,
    pub description: &'static str,
    pub severity: Severity,
}

impl MissingSignerCheck {
    pub fn new() -> (r: Self)
        ensures
            r.name@ == "Missing Signer Check"@,
            r.description@ == "Account signer status is not verified before use"@,
            r.severity == Severity::High,
    {
        MissingSignerCheck {
            name: "Missing Signer Check",
            description: "Account signer status is not verified before use",
            severity: Severity::High,
        }
    }

    pub fn name(&self) -> (r: &'static str)
        ensures
            r@ == self.name@,
    {
        self.name
    }

    pub fn description(&self) -> (r: &'static str)
        ensures
            r@ == self.description@,
    {
        self.description
    }

    pub fn severity(&self) -> (r: Severity)
        ensures
            r == self.severity,
    {
        self.severity
    }

    /// Scan a tree, reporting every account-taking function whose body
    /// never tests the signer flag.
    pub fn analyze(&self, tree: &SyntaxTree) -> (r: Vec<Vulnerability>)
        ensures
            r@.map_values(|v: Vulnerability| v@) == signer_findings(tree@),
            tree@.wf() ==> forall|i: int| 0 <= i < r@.len() ==> (#[trigger] r@[i]@).wf(),
    {
        let n = tree.functions.len();
        let mut out: Vec<Vulnerability> = Vec::new();
        let mut i: usize = 0;
        proof {
            assert(out@.map_values(|v: Vulnerability| v@) =~= Seq::<VulnerabilityV>::empty());
        }
        while i < n
            invariant
                n == tree.functions@.len(),
                0 <= i <= n,
                signer_findings(tree@) == out@.map_values(|v: Vulnerability| v@)
                    + signer_findings_from(tree@.file, tree@.functions, i as int),
                tree@.wf() ==> forall|k: int| 0 <= k < out@.len() ==> (#[trigger] out@[k]@).wf(),
            decreases n - i,
        {
            let f = &tree.functions[i];
            let ghost fv = tree@.functions[i as int];
            assert(fv == f@);
            let ghost old_map = out@.map_values(|v: Vulnerability| v@);
            if takes_account_exec(f) && !any_stmt_contains(f, ".is_signer") {
                let v = make_finding(
                    Severity::High,
                    "Missing Signer Check",
                    "Account signer status is not verified in function ",
                    f.name.as_str(),
                    tree.file.as_str(),
                    f.line,
                    f.column,
                    "Require the authorizing account to be a transaction signer before changing state",
                );
                proof {
                    assert(signer_flag(tree@.file, fv) == Some(v@));
                }
                out.push(v);
                proof {
                    assert(out@.map_values(|q: Vulnerability| q@) =~= old_map + seq![v@]);
                }
            } else {
                proof {
                    assert(signer_flag(tree@.file, fv) is None);
                }
            }
            proof {
                assert(signer_findings_from(tree@.file, tree@.functions, i as int) == (match
                    signer_flag(tree@.file, fv) {
                    Some(v) => seq![v],
                    None => Seq::empty(),
                }) + signer_findings_from(tree@.file, tree@.functions, i + 1));
            }
            i = i + 1;
        }
        proof {
            assert(signer_findings_from(tree@.file, tree@.functions, i as int) =~= Seq::<
                VulnerabilityV,
            >::empty());
            assert(out@.map_values(|v: Vulnerability| v@) =~= out@.map_values(
                |v: Vulnerability| v@,
            ) + signer_findings_from(tree@.file, tree@.functions, i as int));
        }
        out
    }
}

/// A scan whose owner flags are all clear yields no owner finding.
pub proof fn lemma_owner_findings_empty(file: Seq<char>, fns: Seq<FnDeclV>, i: int)
    requires
        forall|k: int| 0 <= k < fns.len() ==> owner_flag(file, #[trigger] fns[k]) is None,
    ensures
        owner_findings_from(file, fns, i) =~= Seq::<VulnerabilityV>::empty(),
    decreases fns.len() - i,
{
    if 0 <= i < fns.len() {
        lemma_owner_findings_empty(file, fns, i + 1);
    }
}

/// A scan whose signer flags are all clear yields no signer finding.
pub proof fn lemma_signer_findings_empty(file: Seq<char>, fns: Seq<FnDeclV>, i: int)
    requires
        forall|k: int| 0 <= k < fns.len() ==> signer_flag(file, #[trigger] fns[k]) is None,
    ensures
        signer_findings_from(file, fns, i) =~= Seq::<VulnerabilityV>::empty(),
    decreases fns.len() - i,
{
    if 0 <= i < fns.len() {
        lemma_signer_findings_empty(file, fns, i + 1);
    }
}

} // verus!
