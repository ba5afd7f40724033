//! Sysvar spoofing: flags system variables read from caller-supplied
//! accounts instead of the runtime's trusted accessor.

use vstd::prelude::*;

verus! {

use crate::rules::make_finding;
use crate::text::contains_seq;
use crate::text::str_contains;
use crate::tree::FnDeclV;
use crate::tree::StmtV;
use crate::tree::SyntaxTree;
use crate::tree::SyntaxTreeV;
use crate::types::LocationV;
use crate::types::Severity;
use crate::types::Vulnerability;
use crate::types::VulnerabilityV;

/// The statement reads a well-known sysvar out of a supplied account.
pub open spec fn sysvar_trigger(st: StmtV) -> bool {
    contains_seq(st.text, "Clock::from_account_info"@) || contains_seq(
        st.text,
        "Rent::from_account_info"@,
    )
}

/// The finding raised for one statement, if any.
pub open spec fn sysvar_stmt_flag(file: Seq<char>, f: FnDeclV, st: StmtV) -> Option<
    VulnerabilityV,
> {
    if sysvar_trigger(st) {
        Some(
            VulnerabilityV {
                severity: Severity::Medium,
                title: "Sysvar Spoofing"@,
                description: "Sysvar read from a caller-supplied account in function "@ + f.name,
                location: LocationV { file, line: st.line, column: st.column },
                recommendation:
                    "Fetch sysvars through the runtime accessor instead of a passed account"@,
            },
        )
    } else {
        None
    }
}

/// Findings for one function's statements from index `j` on.
pub open spec fn sysvar_fn_from(file: Seq<char>, f: FnDeclV, j: int) -> Seq<VulnerabilityV>
    decreases f.stmts.len() - j,
{
    if j < 0 || j >= f.stmts.len() {
        Seq::empty()
    } else {
        (match sysvar_stmt_flag(file, f, f.stmts[j]) {
            Some(v) => seq![v],
            None => Seq::empty(),
        }) + sysvar_fn_from(file, f, j + 1)
    }
}

/// Findings for the declarations from index `i` on.
pub open spec fn sysvar_findings_from(file: Seq<char>, fns: Seq<FnDeclV>, i: int) -> Seq<
    VulnerabilityV,
>
    decreases fns.len() - i,
{
    if i < 0 || i >= fns.len() {
        Seq::empty()
    } else {
        sysvar_fn_from(file, fns[i], 0) + sysvar_findings_from(file, fns, i + 1)
    }
}

/// All findings of the sysvar rule on one tree.
pub open spec fn sysvar_findings(t: SyntaxTreeV) -> Seq<VulnerabilityV> {
    sysvar_findings_from(t.file, t.functions, 0)
}

/// Flags sysvars sourced from caller-supplied accounts.
pub struct SysvarSpoofing {
    pub name: &'static str,
    pub description: &'static str,
    pub severity: Severity,
}

impl SysvarSpoofing {
    pub fn new() -> (r: Self)
        ensures
            r.name@ == "Sysvar Spoofing"@,
            r.description@ == "System variable is read from a caller-supplied account"@,
            r.severity == Severity::Medium,
    {
        SysvarSpoofing {
            name: "Sysvar Spoofing",
            description: "System variable is read from a caller-supplied account",
            severity: Severity::Medium,
        }
    }

    pub fn name(&self) -> (r: &'static str)
        ensures
            r@ == self.name@,
    {
        self.name
    }

    pub fn description(&self) -> (r: &'static str)
        ensures
            r@ == self.description@,
    {
        self.description
    }

    pub fn severity(&self) -> (r: Severity)
        ensures
            r == self.severity,
    {
        self.severity
    }

    /// Scan a tree, reporting every sysvar read taken from a supplied
    /// account rather than the trusted accessor.
    pub fn analyze(&self, tree: &SyntaxTree) -> (r: Vec<Vulnerability>)
        ensures
            r@.map_values(|v: Vulnerability| v@) == sysvar_findings(tree@),
            tree@.wf() ==> forall|i: int| 0 <= i < r@.len() ==> (#[trigger] r@[i]@).wf(),
    {
        let n = tree.functions.len();
        let mut out: Vec<Vulnerability> = Vec::new();
        let mut i: usize = 0;
        proof {
            assert(out@.map_values(|v: Vulnerability| v@) =~= Seq::<VulnerabilityV>::empty());
        }
        while i < n
            invariant
                n == tree.functions@.len(),
                0 <= i <= n,
                sysvar_findings(tree@) == out@.map_values(|v: Vulnerability| v@)
                    + sysvar_findings_from(tree@.file, tree@.functions, i as int),
                tree@.wf() ==> forall|k: int| 0 <= k < out@.len() ==> (#[trigger] out@[k]@).wf(),
            decreases n - i,
        {
            let f = &tree.functions[i];
            let ghost fv = tree@.functions[i as int];
            assert(fv == f@);
            let m = f.stmts.len();
            let mut j: usize = 0;
            while j < m
                invariant
                    n == tree.functions@.len(),
                    0 <= i < n,
                    fv == tree@.functions[i as int],
                    fv == f@,
                    m == f.stmts@.len(),
                    0 <= j <= m,
                    sysvar_findings(tree@) == out@.map_values(|v: Vulnerability| v@)
                        + sysvar_fn_from(tree@.file, fv, j as int) + sysvar_findings_from(
                        tree@.file,
                        tree@.functions,
                        i + 1,
                    ),
                    tree@.wf() ==> forall|k: int|
                        0 <= k < out@.len() ==> (#[trigger] out@[k]@).wf(),
                decreases m - j,
            {
                let st = &f.stmts[j];
                let ghost stv = fv.stmts[j as int];
                assert(stv == st@);
                let ghost old_map = out@.map_values(|v: Vulnerability| v@);
                if str_contains(st.text.as_str(), "Clock::from_account_info") || str_contains(
                    st.text.as_str(),
                    "Rent::from_account_info",
                ) {
                    let v = make_finding(
                        Severity::Medium,
                        "Sysvar Spoofing",
                        "Sysvar read from a caller-supplied account in function ",
                        f.name.as_str(),
                        tree.file.as_str(),
                        st.line,
                        st.column,
                        "Fetch sysvars through the runtime accessor instead of a passed account",
                    );
                    proof {
                        assert(sysvar_stmt_flag(tree@.file, fv, stv) == Some(v@));
                    }
                    out.push(v);
                    proof {
                        assert(out@.map_values(|q: Vulnerability| q@) =~= old_map + seq![v@]);
                    }
                } else {
                    proof {
                        assert(sysvar_stmt_flag(tree@.file, fv, stv) is None);
                    }
                }
                proof {
                    assert(sysvar_fn_from(tree@.file, fv, j as int) == (match sysvar_stmt_flag(
                        tree@.file,
                        fv,
                        stv,
                    ) {
                        Some(v) => seq![v],
                        None => Seq::empty(),
                    }) + sysvar_fn_from(tree@.file, fv, j + 1));
                }
                j = j + 1;
            }
            proof {
                assert(sysvar_fn_from(tree@.file, fv, j as int) =~= Seq::<VulnerabilityV>::empty());
                assert(sysvar_findings_from(tree@.file, tree@.functions, i as int)
                    == sysvar_fn_from(tree@.file, fv, 0) + sysvar_findings_from(
                    tree@.file,
                    tree@.functions,
                    i + 1,
                ));
            }
            i = i + 1;
        }
        proof {
            assert(sysvar_findings_from(tree@.file, tree@.functions, i as int) =~= Seq::<
                VulnerabilityV,
            >::empty());
            assert(out@.map_values(|v: Vulnerability| v@) =~= out@.map_values(
                |v: Vulnerability| v@,
            ) + sysvar_findings_from(tree@.file, tree@.functions, i as int));
        }
        out
    }
}

} // verus!
