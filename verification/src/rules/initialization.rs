//! Reinitialization: flags account-initializing functions that never
//! test an already-initialized flag before writing initial state.

use vstd::prelude::*;

verus! {

use crate::rules::any_stmt_contains;
use crate::rules::has_stmt_with;
use crate::rules::make_finding;
use crate::text::contains_seq;
use crate::text::str_contains;
use crate::tree::FnDeclV;
use crate::tree::SyntaxTree;
use crate::tree::SyntaxTreeV;
use crate::types::LocationV;
use crate::types::Severity;
use crate::types::Vulnerability;
use crate::types::VulnerabilityV;

/// The function initializes account state, going by its name.
pub open spec fn is_init_fn(f: FnDeclV) -> bool {
    contains_seq(f.name, "init"@)
}

/// The body tests an initialized flag somewhere.
pub open spec fn has_init_check(f: FnDeclV) -> bool {
    has_stmt_with(f, "is_initialized"@)
}

/// The finding the rule raises for one declaration, if any.
pub open spec fn reinit_flag(file: Seq<char>, f: FnDeclV) -> Option<VulnerabilityV> {
    if is_init_fn(f) && !has_init_check(f) {
        Some(
            VulnerabilityV {
                severity: Severity::Medium,
                title: "Reinitialization"@,
                description: "Initialization without a prior initialized-state check in function "@
                    + f.name,
                location: LocationV { file, line: f.line, column: f.column },
                recommendation:
                    "Check the account's initialized flag before writing initial state"@,
            },
        )
    } else {
        None
    }
}

/// The rule's findings for the declarations from index `i` on.
pub open spec fn reinit_findings_from(file: Seq<char>, fns: Seq<FnDeclV>, i: int) -> Seq<
    VulnerabilityV,
>
    decreases fns.len() - i,
{
    if i < 0 || i >= fns.len() {
        Seq::empty()
    } else {
        (match reinit_flag(file, fns[i]) {
            Some(v) => seq![v],
            None => Seq::empty(),
        }) + reinit_findings_from(file, fns, i + 1)
    }
}

/// All findings of the reinitialization rule on one tree.
pub open spec fn reinit_findings(t: SyntaxTreeV) -> Seq<VulnerabilityV> {
    reinit_findings_from(t.file, t.functions, 0)
}

/// Flags initializing functions without a prior initialized-state check.
pub struct Reinitialization {
    pub name: &'static str,
    pub description: &'static str,
    pub severity: Severity,
}

impl Reinitialization {
    pub fn new() -> (r: Self)
        ensures
            r.name@ == "Reinitialization"@,
            r.description@ == "Account state can be initialized again"@,
            r.severity == Severity::Medium,
    {
        Reinitialization {
            name: "Reinitialization",
            description: "Account state can be initialized again",
            severity: Severity::Medium,
        }
    }

    pub fn name(&self) -> (r: &'static str)
        ensures
            r@ == self.name@,
    {
        self.name
    }

    pub fn description(&self) -> (r: &'static str)
        ensures
            r@ == self.description@,
    {
        self.description
    }

    pub fn severity(&self) -> (r: Severity)
        ensures
            r == self.severity,
    {
        self.severity
    }

    /// Scan a tree, reporting every initializing function whose body
    /// never tests the initialized flag.
    pub fn analyze(&self, tree: &SyntaxTree) -> (r: Vec<Vulnerability>)
        ensures
            r@.map_values(|v: Vulnerability| v@) == reinit_findings(tree@),
            tree@.wf() ==> forall|i: int| 0 <= i < r@.len() ==> (#[trigger] r@[i]@).wf(),
    {
        let n = tree.functions.len();
        let mut out: Vec<Vulnerability> = Vec::new();
        let mut i: usize = 0;
        proof {
            assert(out@.map_values(|v: Vulnerability| v@) =~= Seq::<VulnerabilityV>::empty());
        }
        while i < n
            invariant
                n == tree.functions@.len(),
                0 <= i <= n,
                reinit_findings(tree@) == out@.map_values(|v: Vulnerability| v@)
                    + reinit_findings_from(tree@.file, tree@.functions, i as int),
                tree@.wf() ==> forall|k: int| 0 <= k < out@.len() ==> (#[trigger] out@[k]@).wf(),
            decreases n - i,
        {
            let f = &tree.functions[i];
            let ghost fv = tree@.functions[i as int];
            assert(fv == f@);
            let ghost old_map = out@.map_values(|v: Vulnerability| v@);
            if str_contains(f.name.as_str(), "init") && !any_stmt_contains(f, "is_initialized") {
                let v = make_finding(
                    Severity::Medium,
                    "Reinitialization",
                    "Initialization without a prior initialized-state check in function ",
                    f.name.as_str(),
                    tree.file.as_str(),
                    f.line,
                    f.column,
                    "Check the account's initialized flag before writing initial state",
                );
                proof {
                    assert(reinit_flag(tree@.file, fv) == Some(v@));
                }
                out.push(v);
                proof {
                    assert(out@.map_values(|q: Vulnerability| q@) =~= old_map + seq![v@]);
                }
            } else {
                proof {
                    assert(reinit_flag(tree@.file, fv) is None);
                }
            }
            proof {
                assert(reinit_findings_from(tree@.file, tree@.functions, i as int) == (match
                    reinit_flag(tree@.file, fv) {
                    Some(v) => seq![v],
                    None => Seq::empty(),
                }) + reinit_findings_from(tree@.file, tree@.functions, i + 1));
            }
            i = i + 1;
        }
        proof {
            assert(reinit_findings_from(tree@.file, tree@.functions, i as int) =~= Seq::<
                VulnerabilityV,
            >::empty());
            assert(out@.map_values(|v: Vulnerability| v@) =~= out@.map_values(
                |v: Vulnerability| v@,
            ) + reinit_findings_from(tree@.file, tree@.functions, i as int));
        }
        out
    }
}

} // verus!
