//! The analyzer: builds a tree per source file, runs the built-in rule
//! catalog over it, and assembles the findings into one report. A parse
//! failure inside a directory scan is recorded as a warning for that
//! file and never aborts the remaining files.

use vstd::prelude::*;

verus! {

use crate::builder::braces_balanced;
use crate::builder::parse_source;
use crate::builder::spec_parse;
use crate::builder::ParseError;
use crate::rules::all_findings;
use crate::rules::RuleSet;
use crate::types::AnalysisReport;
use crate::types::Location;
use crate::types::LocationV;
use crate::types::Suggestion;
use crate::types::SuggestionV;
use crate::types::Vulnerability;
use crate::types::VulnerabilityV;
use crate::types::Warning;
use crate::types::WarningV;

/// Mathematical value of a `SourceFile`.
pub struct SourceFileV {
    pub path: Seq<char>,
    pub content: Seq<char>,
}

/// One located source file, already read: its path and its text.
pub struct SourceFile {
    pub path: String,
    pub content: String,
}

impl View for SourceFile {
    type V = SourceFileV;

    open spec fn view(&self) -> SourceFileV {
        SourceFileV { path: self.path@, content: self.content@ }
    }
}

/// The vulnerabilities one file contributes to a scan: all findings of
/// the catalog when it parses, nothing when it does not.
pub open spec fn file_vulns(f: SourceFileV) -> Seq<VulnerabilityV> {
    if braces_balanced(f.content) {
        all_findings(spec_parse(f.path, f.content))
    } else {
        Seq::empty()
    }
}

/// The warning recorded for a file that fails to parse.
pub open spec fn parse_warning(path: Seq<char>) -> WarningV {
    WarningV {
        title: "file skipped: parse error"@,
        description: "unbalanced braces in source"@,
        location: LocationV { file: path, line: 1, column: 1 },
    }
}

/// The warnings one file contributes: one exactly when it fails to parse.
pub open spec fn file_warns(f: SourceFileV) -> Seq<WarningV> {
    if braces_balanced(f.content) {
        Seq::empty()
    } else {
        seq![parse_warning(f.path)]
    }
}

/// All vulnerabilities of the files from index `i` on.
pub open spec fn dir_vulns_from(files: Seq<SourceFileV>, i: int) -> Seq<VulnerabilityV>
    decreases files.len() - i,
{
    if i < 0 || i >= files.len() {
        Seq::empty()
    } else {
        file_vulns(files[i]) + dir_vulns_from(files, i + 1)
    }
}

/// All warnings of the files from index `i` on.
pub open spec fn dir_warns_from(files: Seq<SourceFileV>, i: int) -> Seq<WarningV>
    decreases files.len() - i,
{
    if i < 0 || i >= files.len() {
        Seq::empty()
    } else {
        file_warns(files[i]) + dir_warns_from(files, i + 1)
    }
}

/// Orchestrates tree building and rule dispatch over files.
pub struct Analyzer {
    rule_set: RuleSet,
}

impl Analyzer {
    pub fn new() -> (r: Self) {
        Analyzer { rule_set: RuleSet::new() }
    }

    /// Analyze one source file: build its tree, run the catalog, and
    /// return a report holding exactly the catalog's findings.
    pub fn analyze_file(&self, path: &str, content: &str) -> (r: Result<AnalysisReport, ParseError>)
        ensures
            r is Ok <==> braces_balanced(content@),
            r matches Ok(rep) ==> {
                &&& rep@.vulnerabilities == all_findings(spec_parse(path@, content@))
                &&& rep@.warnings == Seq::<WarningV>::empty()
                &&& rep@.suggestions == Seq::<SuggestionV>::empty()
                &&& rep@.wf()
            },
            r matches Err(e) ==> e.file@ == path@ && e.message@
                == "unbalanced braces in source"@,
    {
        match parse_source(path, content) {
            Ok(tree) => {
                let vulnerabilities = self.rule_set.analyze(&tree);
                let warnings: Vec<Warning> = Vec::new();
                let suggestions: Vec<Suggestion> = Vec::new();
                let rep = AnalysisReport { vulnerabilities, warnings, suggestions };
                proof {
                    assert(rep@.warnings =~= Seq::<WarningV>::empty());
                    assert(rep@.suggestions =~= Seq::<SuggestionV>::empty());
                }
                Ok(rep)
            },
            Err(e) => Err(e),
        }
    }

    /// Analyze every file of a directory scan. A file that fails to
    /// parse contributes one warning; every other file contributes the
    /// catalog's findings; no failure aborts the scan.
    pub fn analyze_directory(&self, files: &Vec<SourceFile>) -> (r: AnalysisReport)
        ensures
            r@.vulnerabilities == dir_vulns_from(files@.map_values(|f: SourceFile| f@), 0),
            r@.warnings == dir_warns_from(files@.map_values(|f: SourceFile| f@), 0),
            r@.suggestions == Seq::<SuggestionV>::empty(),
            r@.wf(),
    {
        let ghost fvs = files@.map_values(|f: SourceFile| f@);
        let n = files.len();
        let mut vulnerabilities: Vec<Vulnerability> = Vec::new();
        let mut warnings: Vec<Warning> = Vec::new();
        let mut i: usize = 0;
        proof {
            assert(vulnerabilities@.map_values(|v: Vulnerability| v@) =~= Seq::<
                VulnerabilityV,
            >::empty());
            assert(warnings@.map_values(|w: Warning| w@) =~= Seq::<WarningV>::empty());
        }
        while i < n
            invariant
                n == files@.len(),
                fvs == files@.map_values(|f: SourceFile| f@),
                0 <= i <= n,
                dir_vulns_from(fvs, 0) == vulnerabilities@.map_values(|v: Vulnerability| v@)
                    + dir_vulns_from(fvs, i as int),
                dir_warns_from(fvs, 0) == warnings@.map_values(|w: Warning| w@) + dir_warns_from(
                    fvs,
                    i as int,
                ),
                forall|k: int|
                    0 <= k < vulnerabilities@.len() ==> (#[trigger] vulnerabilities@[k]@).wf(),
                forall|k: int| 0 <= k < warnings@.len() ==> (#[trigger] warnings@[k]@).wf(),
            decreases n - i,
        {
            let file = &files[i];
            let ghost fv = fvs[i as int];
            assert(fv == file@);
            let ghost old_vulns = vulnerabilities@.map_values(|v: Vulnerability| v@);
            let ghost old_warns = warnings@.map_values(|w: Warning| w@);
            match self.analyze_file(file.path.as_str(), file.content.as_str()) {
                Ok(mut rep) => {
                    let ghost repv = rep@;
                    proof {
                        assert(file_vulns(fv) == repv.vulnerabilities);
                        assert(file_warns(fv) =~= Seq::<WarningV>::empty());
                    }
                    let ghost old_len = vulnerabilities@.len();
                    let ghost added = rep.vulnerabilities@;
                    vulnerabilities.append(&mut rep.vulnerabilities);
                    proof {
                        assert(vulnerabilities@.map_values(|v: Vulnerability| v@) =~= old_vulns
                            + file_vulns(fv));
                        assert forall|k: int|
                            0 <= k < vulnerabilities@.len() implies (
                        #[trigger] vulnerabilities@[k]@).wf() by {
                            if k >= old_len {
                                assert(vulnerabilities@[k] == added[k - old_len]);
                                assert(added[k - old_len]@ == repv.vulnerabilities[k - old_len]);
                            }
                        }
                    }
                },
                Err(e) => {
                    let w = Warning {
                        title: "file skipped: parse error".to_owned(),
                        description: e.message,
                        location: Location { file: e.file, line: 1, column: 1 },
                    };
                    proof {
                        assert(w@ == parse_warning(fv.path));
                        assert(file_warns(fv) == seq![parse_warning(fv.path)]);
                        assert(file_vulns(fv) =~= Seq::<VulnerabilityV>::empty());
                    }
                    warnings.push(w);
                    proof {
                        assert(warnings@.map_values(|q: Warning| q@) =~= old_warns + seq![
                            parse_warning(fv.path),
                        ]);
                    }
                },
            }
            proof {
                assert(dir_vulns_from(fvs, i as int) == file_vulns(fv) + dir_vulns_from(
                    fvs,
                    i + 1,
                ));
                assert(dir_warns_from(fvs, i as int) == file_warns(fv) + dir_warns_from(
                    fvs,
                    i + 1,
                ));
            }
            i = i + 1;
        }
        proof {
            assert(dir_vulns_from(fvs, i as int) =~= Seq::<VulnerabilityV>::empty());
            assert(dir_warns_from(fvs, i as int) =~= Seq::<WarningV>::empty());
            assert(vulnerabilities@.map_values(|v: Vulnerability| v@) =~= vulnerabilities@
                .map_values(|v: Vulnerability| v@) + dir_vulns_from(fvs, i as int));
            assert(warnings@.map_values(|w: Warning| w@) =~= warnings@.map_values(|w: Warning| w@)
                + dir_warns_from(fvs, i as int));
        }
        let suggestions: Vec<Suggestion> = Vec::new();
        let rep = AnalysisReport { vulnerabilities, warnings, suggestions };
        proof {
            assert(rep@.suggestions =~= Seq::<SuggestionV>::empty());
        }
        rep
    }
}

} // verus!
