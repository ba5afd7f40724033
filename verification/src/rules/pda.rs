//! Program-derived address validation: flags derivation of a PDA that is
//! never re-derived from its seeds and compared against the supplied key.

use vstd::prelude::*;

verus! {

use crate::rules::any_stmt_contains;
use crate::rules::has_stmt_with;
use crate::rules::make_finding;
use crate::text::contains_seq;
use crate::text::str_contains;
use crate::tree::FnDeclV;
use crate::tree::StmtV;
use crate::tree::SyntaxTree;
use crate::tree::SyntaxTreeV;
use crate::types::LocationV;
use crate::types::Severity;
use crate::types::Vulnerability;
use crate::types::VulnerabilityV;

/// The statement derives a program address directly.
pub open spec fn pda_trigger(st: StmtV) -> bool {
    contains_seq(st.text, "create_program_address"@)
}

/// The function re-derives the address from its seeds somewhere.
pub open spec fn pda_exempt(f: FnDeclV) -> bool {
    has_stmt_with(f, "find_program_address"@)
}

/// The finding raised for one statement, if any.
pub open spec fn pda_stmt_flag(file: Seq<char>, f: FnDeclV, st: StmtV) -> Option<VulnerabilityV> {
    if pda_trigger(st) && !pda_exempt(f) {
        Some(
            VulnerabilityV {
                severity: Severity::High,
                title: "PDA Validation Error"@,
                description: "Program-derived address used without re-derivation check in function "@
                    + f.name,
                location: LocationV { file, line: st.line, column: st.column },
                recommendation:
                    "Re-derive the address from its seeds and compare it to the supplied account key"@,
            },
        )
    } else {
        None
    }
}

/// Findings for one function's statements from index `j` on.
pub open spec fn pda_fn_from(file: Seq<char>, f: FnDeclV, j: int) -> Seq<VulnerabilityV>
    decreases f.stmts.len() - j,
{
    if j < 0 || j >= f.stmts.len() {
        Seq::empty()
    } else {
        (match pda_stmt_flag(file, f, f.stmts[j]) {
            Some(v) => seq![v],
            None => Seq::empty(),
        }) + pda_fn_from(file, f, j + 1)
    }
}

/// Findings for the declarations from index `i` on.
pub open spec fn pda_findings_from(file: Seq<char>, fns: Seq<FnDeclV>, i: int) -> Seq<
    VulnerabilityV,
>
    decreases fns.len() - i,
{
    if i < 0 || i >= fns.len() {
        Seq::empty()
    } else {
        pda_fn_from(file, fns[i], 0) + pda_findings_from(file, fns, i + 1)
    }
}

/// All findings of the PDA rule on one tree.
pub open spec fn pda_findings(t: SyntaxTreeV) -> Seq<VulnerabilityV> {
    pda_findings_from(t.file, t.functions, 0)
}

/// Flags program-derived addresses used without re-derivation.
pub struct PdaValidationError {
    pub name: &'static str,
    pub description: &'static str,
    pub severity: Severity,
}

impl PdaValidationError {
    pub fn new() -> (r: Self)
        ensures
            r.name@ == "PDA Validation Error"@,
            r.description@ == "Program-derived address is not validated by re-derivation"@,
            r.severity == Severity::High,
    {
        PdaValidationError {
            name: "PDA Validation Error",
            description: "Program-derived address is not validated by re-derivation",
            severity: Severity::High,
        }
    }

    pub fn name(&self) -> (r: &'static str)
        ensures
            r@ == self.name@,
    {
        self.name
    }

    pub fn description(&self) -> (r: &'static str)
        ensures
            r@ == self.description@,
    {
        self.description
    }

    pub fn severity(&self) -> (r: Severity)
        ensures
            r == self.severity,
    {
        self.severity
    }

    /// Scan a tree, reporting every direct derivation in a function that
    /// never re-derives and compares the address.
    pub fn analyze(&self, tree: &SyntaxTree) -> (r: Vec<Vulnerability>)
        ensures
            r@.map_values(|v: Vulnerability| v@) == pda_findings(tree@),
            tree@.wf() ==> forall|i: int| 0 <= i < r@.len() ==> (#[trigger] r@[i]@).wf(),
    {
        let n = tree.functions.len();
        let mut out: Vec<Vulnerability> = Vec::new();
        let mut i: usize = 0;
        proof {
            assert(out@.map_values(|v: Vulnerability| v@) =~= Seq::<VulnerabilityV>::empty());
        }
        while i < n
            invariant
                n == tree.functions@.len(),
                0 <= i <= n,
                pda_findings(tree@) == out@.map_values(|v: Vulnerability| v@) + pda_findings_from(
                    tree@.file,
                    tree@.functions,
                    i as int,
                ),
                tree@.wf() ==> forall|k: int| 0 <= k < out@.len() ==> (#[trigger] out@[k]@).wf(),
            decreases n - i,
        {
            let f = &tree.functions[i];
            let ghost fv = tree@.functions[i as int];
            assert(fv == f@);
            let exempt = any_stmt_contains(f, "find_program_address");
            let m = f.stmts.len();
            let mut j: usize = 0;
            while j < m
                invariant
                    n == tree.functions@.len(),
                    0 <= i < n,
                    fv == tree@.functions[i as int],
                    fv == f@,
                    m == f.stmts@.len(),
                    0 <= j <= m,
                    exempt == pda_exempt(fv),
                    pda_findings(tree@) == out@.map_values(|v: Vulnerability| v@) + pda_fn_from(
                        tree@.file,
                        fv,
                        j as int,
                    ) + pda_findings_from(tree@.file, tree@.functions, i + 1),
                    tree@.wf() ==> forall|k: int|
                        0 <= k < out@.len() ==> (#[trigger] out@[k]@).wf(),
                decreases m - j,
            {
                let st = &f.stmts[j];
                let ghost stv = fv.stmts[j as int];
                assert(stv == st@);
                let ghost old_map = out@.map_values(|v: Vulnerability| v@);
                if !exempt && str_contains(st.text.as_str(), "create_program_address") {
                    let v = make_finding(
                        Severity::High,
                        "PDA Validation Error",
                        "Program-derived address used without re-derivation check in function ",
                        f.name.as_str(),
                        tree.file.as_str(),
                        st.line,
                        st.column,
                        "Re-derive the address from its seeds and compare it to the supplied account key",
                    );
                    proof {
                        assert(pda_stmt_flag(tree@.file, fv, stv) == Some(v@));
                    }
                    out.push(v);
                    proof {
                        assert(out@.map_values(|q: Vulnerability| q@) =~= old_map + seq![v@]);
                    }
                } else {
                    proof {
                        assert(pda_stmt_flag(tree@.file, fv, stv) is None);
                    }
                }
                proof {
                    assert(pda_fn_from(tree@.file, fv, j as int) == (match pda_stmt_flag(
                        tree@.file,
                        fv,
                        stv,
                    ) {
                        Some(v) => seq![v],
                        None => Seq::empty(),
                    }) + pda_fn_from(tree@.file, fv, j + 1));
                }
                j = j + 1;
            }
            proof {
                assert(pda_fn_from(tree@.file, fv, j as int) =~= Seq::<VulnerabilityV>::empty());
                assert(pda_findings_from(tree@.file, tree@.functions, i as int) == pda_fn_from(
                    tree@.file,
                    fv,
                    0,
                ) + pda_findings_from(tree@.file, tree@.functions, i + 1));
            }
            i = i + 1;
        }
        proof {
            assert(pda_findings_from(tree@.file, tree@.functions, i as int) =~= Seq::<
                VulnerabilityV,
            >::empty());
            assert(out@.map_values(|v: Vulnerability| v@) =~= out@.map_values(
                |v: Vulnerability| v@,
            ) + pda_findings_from(tree@.file, tree@.functions, i as int));
        }
        out
    }
}

} // verus!
