//! Arbitrary cross-program invocation: flags invocations whose target
//! program id is never validated against an expected constant.

use vstd::prelude::*;

verus! {

use crate::rules::any_stmt_contains2;
use crate::rules::has_stmt_with2;
use crate::rules::make_finding;
use crate::text::contains_seq;
use crate::text::str_contains;
use crate::tree::FnDeclV;
use crate::tree::StmtV;
use crate::tree::SyntaxTree;
use crate::tree::SyntaxTreeV;
use crate::types::LocationV;
use crate::types::Severity;
use crate::types::Vulnerability;
use crate::types::VulnerabilityV;

/// The statement performs a cross-program invocation.
pub open spec fn cpi_trigger(st: StmtV) -> bool {
    contains_seq(st.text, "invoke("@) || contains_seq(st.text, "invoke_signed("@)
}

/// The function compares a program id somewhere.
pub open spec fn cpi_exempt(f: FnDeclV) -> bool {
    has_stmt_with2(f, "program_id"@, "=="@)
}

/// The finding raised for one statement, if any.
pub open spec fn cpi_stmt_flag(file: Seq<char>, f: FnDeclV, st: StmtV) -> Option<VulnerabilityV> {
    if cpi_trigger(st) && !cpi_exempt(f) {
        Some(
            VulnerabilityV {
                severity: Severity::High,
                title: "Arbitrary CPI"@,
                description: "Cross-program invocation without program id validation in function "@
                    + f.name,
                location: LocationV { file, line: st.line, column: st.column },
                recommendation:
                    "Validate the target program id against an expected constant before invoking"@,
            },
        )
    } else {
        None
    }
}

/// Findings for one function's statements from index `j` on.
pub open spec fn cpi_fn_from(file: Seq<char>, f: FnDeclV, j: int) -> Seq<VulnerabilityV>
    decreases f.stmts.len() - j,
{
    if j < 0 || j >= f.stmts.len() {
        Seq::empty()
    } else {
        (match cpi_stmt_flag(file, f, f.stmts[j]) {
            Some(v) => seq![v],
            None => Seq::empty(),
        }) + cpi_fn_from(file, f, j + 1)
    }
}

/// Findings for the declarations from index `i` on.
pub open spec fn cpi_findings_from(file: Seq<char>, fns: Seq<FnDeclV>, i: int) -> Seq<
    VulnerabilityV,
>
    decreases fns.len() - i,
{
    if i < 0 || i >= fns.len() {
        Seq::empty()
    } else {
        cpi_fn_from(file, fns[i], 0) + cpi_findings_from(file, fns, i + 1)
    }
}

/// All findings of the CPI rule on one tree.
pub open spec fn cpi_findings(t: SyntaxTreeV) -> Seq<VulnerabilityV> {
    cpi_findings_from(t.file, t.functions, 0)
}

/// Flags cross-program invocations with unvalidated targets.
pub struct ArbitraryCpi {
    pub name: &'static str,
    pub description: &'static str,
    pub severity: Severity,
}

impl ArbitraryCpi {
    pub fn new() -> (r: Self)
        ensures
            r.name@ == "Arbitrary CPI"@,
            r.description@ == "Cross-program invocation target is not validated"@,
            r.severity == Severity::High,
    {
        ArbitraryCpi {
            name: "Arbitrary CPI",
            description: "Cross-program invocation target is not validated",
            severity: Severity::High,
        }
    }

    pub fn name(&self) -> (r: &'static str)
        ensures
            r@ == self.name@,
    {
        self.name
    }

    pub fn description(&self) -> (r: &'static str)
        ensures
            r@ == self.description@,
    {
        self.description
    }

    pub fn severity(&self) -> (r: Severity)
        ensures
            r == self.severity,
    {
        self.severity
    }

    /// Scan a tree, reporting every invocation in a function that never
    /// compares a program id.
    pub fn analyze(&self, tree: &SyntaxTree) -> (r: Vec<Vulnerability>)
        ensures
            r@.map_values(|v: Vulnerability| v@) == cpi_findings(tree@),
            tree@.wf() ==> forall|i: int| 0 <= i < r@.len() ==> (#[trigger] r@[i]@).wf(),
    {
        let n = tree.functions.len();
        let mut out: Vec<Vulnerability> = Vec::new();
        let mut i: usize = 0;
        proof {
            assert(out@.map_values(|v: Vulnerability| v@) =~= Seq::<VulnerabilityV>::empty());
        }
        while i < n
            invariant
                n == tree.functions@.len(),
                0 <= i <= n,
                cpi_findings(tree@) == out@.map_values(|v: Vulnerability| v@) + cpi_findings_from(
                    tree@.file,
                    tree@.functions,
                    i as int,
                ),
                tree@.wf() ==> forall|k: int| 0 <= k < out@.len() ==> (#[trigger] out@[k]@).wf(),
            decreases n - i,
        {
            let f = &tree.functions[i];
            let ghost fv = tree@.functions[i as int];
            assert(fv == f@);
            let exempt = any_stmt_contains2(f, "program_id", "==");
            let m = f.stmts.len();
            let mut j: usize = 0;
            while j < m
                invariant
                    n == tree.functions@.len(),
                    0 <= i < n,
                    fv == tree@.functions[i as int],
                    fv == f@,
                    m == f.stmts@.len(),
                    0 <= j <= m,
                    exempt == cpi_exempt(fv),
                    cpi_findings(tree@) == out@.map_values(|v: Vulnerability| v@) + cpi_fn_from(
                        tree@.file,
                        fv,
                        j as int,
                    ) + cpi_findings_from(tree@.file, tree@.functions, i + 1),
                    tree@.wf() ==> forall|k: int|
                        0 <= k < out@.len() ==> (#[trigger] out@[k]@).wf(),
                decreases m - j,
            {
                let st = &f.stmts[j];
                let ghost stv = fv.stmts[j as int];
                assert(stv == st@);
                let ghost old_map = out@.map_values(|v: Vulnerability| v@);
                let text = st.text.as_str();
                if !exempt && (str_contains(text, "invoke(") || str_contains(
                    text,
                    "invoke_signed(",
                )) {
                    let v = make_finding(
                        Severity::High,
                        "Arbitrary CPI",
                        "Cross-program invocation without program id validation in function ",
                        f.name.as_str(),
                        tree.file.as_str(),
                        st.line,
                        st.column,
                        "Validate the target program id against an expected constant before invoking",
                    );
                    proof {
                        assert(cpi_stmt_flag(tree@.file, fv, stv) == Some(v@));
                    }
                    out.push(v);
                    proof {
                        assert(out@.map_values(|q: Vulnerability| q@) =~= old_map + seq![v@]);
                    }
                } else {
                    proof {
                        assert(cpi_stmt_flag(tree@.file, fv, stv) is None);
                    }
                }
                proof {
                    assert(cpi_fn_from(tree@.file, fv, j as int) == (match cpi_stmt_flag(
                        tree@.file,
                        fv,
                        stv,
                    ) {
                        Some(v) => seq![v],
                        None => Seq::empty(),
                    }) + cpi_fn_from(tree@.file, fv, j + 1));
                }
                j = j + 1;
            }
            proof {
                assert(cpi_fn_from(tree@.file, fv, j as int) =~= Seq::<VulnerabilityV>::empty());
                assert(cpi_findings_from(tree@.file, tree@.functions, i as int) == cpi_fn_from(
                    tree@.file,
                    fv,
                    0,
                ) + cpi_findings_from(tree@.file, tree@.functions, i + 1));
            }
            i = i + 1;
        }
        proof {
            assert(cpi_findings_from(tree@.file, tree@.functions, i as int) =~= Seq::<
                VulnerabilityV,
            >::empty());
            assert(out@.map_values(|v: Vulnerability| v@) =~= out@.map_values(
                |v: Vulnerability| v@,
            ) + cpi_findings_from(tree@.file, tree@.functions, i as int));
        }
        out
    }
}

} // verus!
