//! Unchecked arithmetic: flags balance-field updates that use plain
//! compound arithmetic instead of checked or saturating operations.

use vstd::prelude::*;

verus! {

use crate::rules::make_finding;
use crate::text::contains_seq;
use crate::text::str_contains;
use crate::tree::FnDeclV;
use crate::tree::StmtV;
use crate::tree::SyntaxTree;
use crate::tree::SyntaxTreeV;
use crate::types::LocationV;
use crate::types::Severity;
use crate::types::Vulnerability;
use crate::types::VulnerabilityV;

/// The statement updates a balance-like field with plain arithmetic and
/// shows no checked or saturating call.
pub open spec fn arith_trigger(st: StmtV) -> bool {
    &&& (contains_seq(st.text, "lamports"@) || contains_seq(st.text, "balance"@))
    &&& (contains_seq(st.text, "+="@) || contains_seq(st.text, "-="@) || contains_seq(
        st.text,
        "*="@,
    ))
    &&& !contains_seq(st.text, "checked_"@)
    &&& !contains_seq(st.text, "saturating_"@)
}

/// The finding raised for one statement, if any.
pub open spec fn arith_stmt_flag(file: Seq<char>, f: FnDeclV, st: StmtV) -> Option<
    VulnerabilityV,
> {
    if arith_trigger(st) {
        Some(
            VulnerabilityV {
                severity: Severity::Medium,
                title: "Unchecked Arithmetic"@,
                description: "Unchecked arithmetic on a balance field in function "@ + f.name,
                location: LocationV { file, line: st.line, column: st.column },
                recommendation:
                    "Use checked or saturating operations when updating balances"@,
            },
        )
    } else {
        None
    }
}

/// Findings for one function's statements from index `j` on.
pub open spec fn arith_fn_from(file: Seq<char>, f: FnDeclV, j: int) -> Seq<VulnerabilityV>
    decreases f.stmts.len() - j,
{
    if j < 0 || j >= f.stmts.len() {
        Seq::empty()
    } else {
        (match arith_stmt_flag(file, f, f.stmts[j]) {
            Some(v) => seq![v],
            None => Seq::empty(),
        }) + arith_fn_from(file, f, j + 1)
    }
}

/// Findings for the declarations from index `i` on.
pub open spec fn arith_findings_from(file: Seq<char>, fns: Seq<FnDeclV>, i: int) -> Seq<
    VulnerabilityV,
>
    decreases fns.len() - i,
{
    if i < 0 || i >= fns.len() {
        Seq::empty()
    } else {
        arith_fn_from(file, fns[i], 0) + arith_findings_from(file, fns, i + 1)
    }
}

/// All findings of the arithmetic rule on one tree.
pub open spec fn arith_findings(t: SyntaxTreeV) -> Seq<VulnerabilityV> {
    arith_findings_from(t.file, t.functions, 0)
}

/// Flags unchecked arithmetic on token and lamport balances.
pub struct UncheckedArithmetic {
    pub name: &'static str,
    pub description: &'static str,
    pub severity: Severity,
}

impl UncheckedArithmetic {
    pub fn new() -> (r: Self)
        ensures
            r.name@ == "Unchecked Arithmetic"@,
            r.description@ == "Balance arithmetic is not overflow-checked"@,
            r.severity == Severity::Medium,
    {
        UncheckedArithmetic {
            name: "Unchecked Arithmetic",
            description: "Balance arithmetic is not overflow-checked",
            severity: Severity::Medium,
        }
    }

    pub fn name(&self) -> (r: &'static str)
        ensures
            r@ == self.name@,
    {
        self.name
    }

    pub fn description(&self) -> (r: &'static str)
        ensures
            r@ == self.description@,
    {
        self.description
    }

    pub fn severity(&self) -> (r: Severity)
        ensures
            r == self.severity,
    {
        self.severity
    }

    /// Scan a tree, reporting every plain compound update of a balance
    /// field.
    pub fn analyze(&self, tree: &SyntaxTree) -> (r: Vec<Vulnerability>)
        ensures
            r@.map_values(|v: Vulnerability| v@) == arith_findings(tree@),
            tree@.wf() ==> forall|i: int| 0 <= i < r@.len() ==> (#[trigger] r@[i]@).wf(),
    {
        let n = tree.functions.len();
        let mut out: Vec<Vulnerability> = Vec::new();
        let mut i: usize = 0;
        proof {
            assert(out@.map_values(|v: Vulnerability| v@) =~= Seq::<VulnerabilityV>::empty());
        }
        while i < n
            invariant
                n == tree.functions@.len(),
                0 <= i <= n,
                arith_findings(tree@) == out@.map_values(|v: Vulnerability| v@)
                    + arith_findings_from(tree@.file, tree@.functions, i as int),
                tree@.wf() ==> forall|k: int| 0 <= k < out@.len() ==> (#[trigger] out@[k]@).wf(),
            decreases n - i,
        {
            let f = &tree.functions[i];
            let ghost fv = tree@.functions[i as int];
            assert(fv == f@);
            let m = f.stmts.len();
            let mut j: usize = 0;
            while j < m
                invariant
                    n == tree.functions@.len(),
                    0 <= i < n,
                    fv == tree@.functions[i as int],
                    fv == f@,
                    m == f.stmts@.len(),
                    0 <= j <= m,
                    arith_findings(tree@) == out@.map_values(|v: Vulnerability| v@)
                        + arith_fn_from(tree@.file, fv, j as int) + arith_findings_from(
                        tree@.file,
                        tree@.functions,
                        i + 1,
                    ),
                    tree@.wf() ==> forall|k: int|
                        0 <= k < out@.len() ==> (#[trigger] out@[k]@).wf(),
                decreases m - j,
            {
                let st = &f.stmts[j];
                let ghost stv = fv.stmts[j as int];
                assert(stv == st@);
                let ghost old_map = out@.map_values(|v: Vulnerability| v@);
                let text = st.text.as_str();
                let balance_like = str_contains(text, "lamports") || str_contains(text, "balance");
                let compound = str_contains(text, "+=") || str_contains(text, "-=")
                    || str_contains(text, "*=");
                let guarded = str_contains(text, "checked_") || str_contains(text, "saturating_");
                if balance_like && compound && !guarded {
                    let v = make_finding(
                        Severity::Medium,
                        "Unchecked Arithmetic",
                        "Unchecked arithmetic on a balance field in function ",
                        f.name.as_str(),
                        tree.file.as_str(),
                        st.line,
                        st.column,
                        "Use checked or saturating operations when updating balances",
                    );
                    proof {
                        assert(arith_stmt_flag(tree@.file, fv, stv) == Some(v@));
                    }
                    out.push(v);
                    proof {
                        assert(out@.map_values(|q: Vulnerability| q@) =~= old_map + seq![v@]);
                    }
                } else {
                    proof {
                        assert(arith_stmt_flag(tree@.file, fv, stv) is None);
                    }
                }
                proof {
                    assert(arith_fn_from(tree@.file, fv, j as int) == (match arith_stmt_flag(
                        tree@.file,
                        fv,
                        stv,
                    ) {
                        Some(v) => seq![v],
                        None => Seq::empty(),
                    }) + arith_fn_from(tree@.file, fv, j + 1));
                }
                j = j + 1;
            }
            proof {
                assert(arith_fn_from(tree@.file, fv, j as int) =~= Seq::<VulnerabilityV>::empty());
                assert(arith_findings_from(tree@.file, tree@.functions, i as int) == arith_fn_from(
                    tree@.file,
                    fv,
                    0,
                ) + arith_findings_from(tree@.file, tree@.functions, i + 1));
            }
            i = i + 1;
        }
        proof {
            assert(arith_findings_from(tree@.file, tree@.functions, i as int) =~= Seq::<
                VulnerabilityV,
            >::empty());
            assert(out@.map_values(|v: Vulnerability| v@) =~= out@.map_values(
                |v: Vulnerability| v@,
            ) + arith_findings_from(tree@.file, tree@.functions, i as int));
        }
        out
    }
}

} // verus!
