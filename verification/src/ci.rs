//! CI integration: merges per-file reports, counts findings per
//! severity, and decides whether a change set passes.

use vstd::prelude::*;

verus! {

use crate::text::dec_digits;
use crate::text::usize_to_string;
use crate::types::AnalysisReport;
use crate::types::AnalysisReportV;
use crate::types::Severity;
use crate::types::Suggestion;
use crate::types::SuggestionV;
use crate::types::Vulnerability;
use crate::types::VulnerabilityV;
use crate::types::Warning;
use crate::types::WarningV;
use vstd::string::StringExecFns;

/// The CI provider a result is published to. Publishing itself is a
/// collaborator's concern.
pub enum CiProvider {
    GitHub,
    GitLab,
    Bitbucket,
    Jenkins,
    CircleCI,
    Custom(String),
}

/// Counts of findings per severity over one merged report.
pub struct CiSummary {
    pub total_issues: usize,
    pub critical_issues: usize,
    pub high_issues: usize,
    pub medium_issues: usize,
    pub low_issues: usize,
    pub info_issues: usize,
}

/// The outcome of a CI run: the pass decision, a message, the merged
/// report and its summary.
pub struct CiResult {
    pub success: bool,
    pub message: String,
    pub report: Option<AnalysisReport>,
    pub summary: Option<CiSummary>,
}

/// How many findings from index `i` on carry the given severity.
pub open spec fn count_sev_from(vulns: Seq<VulnerabilityV>, sev: Severity, i: int) -> int
    decreases vulns.len() - i,
{
    if i < 0 || i >= vulns.len() {
        0
    } else {
        (if vulns[i].severity == sev {
            1int
        } else {
            0int
        }) + count_sev_from(vulns, sev, i + 1)
    }
}

/// How many findings of a report carry the given severity.
pub open spec fn count_sev(vulns: Seq<VulnerabilityV>, sev: Severity) -> int {
    count_sev_from(vulns, sev, 0)
}

pub broadcast proof fn lemma_count_sev_bounds(vulns: Seq<VulnerabilityV>, sev: Severity, i: int)
    requires
        0 <= i <= vulns.len(),
    ensures
        0 <= #[trigger] count_sev_from(vulns, sev, i) <= vulns.len() - i,
    decreases vulns.len() - i,
{
    if i < vulns.len() {
        lemma_count_sev_bounds(vulns, sev, i + 1);
    }
}

/// Every finding carries exactly one severity, so the five counts
/// partition the report.
pub proof fn lemma_counts_partition(vulns: Seq<VulnerabilityV>, i: int)
    requires
        0 <= i <= vulns.len(),
    ensures
        count_sev_from(vulns, Severity::Critical, i) + count_sev_from(vulns, Severity::High, i)
            + count_sev_from(vulns, Severity::Medium, i) + count_sev_from(vulns, Severity::Low, i)
            + count_sev_from(vulns, Severity::Info, i) == vulns.len() - i,
    decreases vulns.len() - i,
{
    if i < vulns.len() {
        lemma_counts_partition(vulns, i + 1);
    }
}

impl CiSummary {
    /// Count one report's findings per severity.
    pub fn from_report(report: &AnalysisReport) -> (r: CiSummary)
        ensures
            r.total_issues as int == report@.vulnerabilities.len(),
            r.critical_issues as int == count_sev(report@.vulnerabilities, Severity::Critical),
            r.high_issues as int == count_sev(report@.vulnerabilities, Severity::High),
            r.medium_issues as int == count_sev(report@.vulnerabilities, Severity::Medium),
            r.low_issues as int == count_sev(report@.vulnerabilities, Severity::Low),
            r.info_issues as int == count_sev(report@.vulnerabilities, Severity::Info),
    {
        broadcast use lemma_count_sev_bounds;

        let ghost vulns = report@.vulnerabilities;
        let n = report.vulnerabilities.len();
        let mut critical: usize = 0;
        let mut high: usize = 0;
        let mut medium: usize = 0;
        let mut low: usize = 0;
        let mut info: usize = 0;
        let mut i: usize = 0;
        while i < n
            invariant
                n == vulns.len(),
                vulns == report@.vulnerabilities,
                0 <= i <= n,
                critical <= i && high <= i && medium <= i && low <= i && info <= i,
                count_sev(vulns, Severity::Critical) == critical + count_sev_from(
                    vulns,
                    Severity::Critical,
                    i as int,
                ),
                count_sev(vulns, Severity::High) == high + count_sev_from(
                    vulns,
                    Severity::High,
                    i as int,
                ),
                count_sev(vulns, Severity::Medium) == medium + count_sev_from(
                    vulns,
                    Severity::Medium,
                    i as int,
                ),
                count_sev(vulns, Severity::Low) == low + count_sev_from(
                    vulns,
                    Severity::Low,
                    i as int,
                ),
                count_sev(vulns, Severity::Info) == info + count_sev_from(
                    vulns,
                    Severity::Info,
                    i as int,
                ),
            decreases n - i,
        {
            let sev = report.vulnerabilities[i].severity;
            assert(sev == vulns[i as int].severity);
            match sev {
                Severity::Critical => {
                    critical = critical + 1;
                },
                Severity::High => {
                    high = high + 1;
                },
                Severity::Medium => {
                    medium = medium + 1;
                },
                Severity::Low => {
                    low = low + 1;
                },
                Severity::Info => {
                    info = info + 1;
                },
            }
            i = i + 1;
        }
        CiSummary {
            total_issues: n,
            critical_issues: critical,
            high_issues: high,
            medium_issues: medium,
            low_issues: low,
            info_issues: info,
        }
    }
}

/// The message a CI run reports for the given per-severity counts.
pub open spec fn ci_message(c: int, h: int, m: int, l: int, inf: int) -> Seq<char> {
    if c == 0 && h == 0 {
        "Security analysis passed"@
    } else {
        "Security analysis failed: "@ + dec_digits(c) + " critical, "@ + dec_digits(h) + " high, "@
            + dec_digits(m) + " medium, "@ + dec_digits(l) + " low, "@ + dec_digits(inf)
            + " info issues found"@
    }
}

/// All vulnerabilities of the reports from index `i` on.
pub open spec fn reports_vulns_from(reps: Seq<AnalysisReportV>, i: int) -> Seq<VulnerabilityV>
    decreases reps.len() - i,
{
    if i < 0 || i >= reps.len() {
        Seq::empty()
    } else {
        reps[i].vulnerabilities + reports_vulns_from(reps, i + 1)
    }
}

/// Merge the per-file reports of a change set, count findings per
/// severity, and decide the outcome: the run succeeds exactly when no
/// Critical and no High finding is present.
pub fn run_analysis(reports: Vec<AnalysisReport>) -> (r: CiResult)
    ensures
        ({
            let merged = reports_vulns_from(reports@.map_values(|p: AnalysisReport| p@), 0);
            &&& r.success == (count_sev(merged, Severity::Critical) == 0 && count_sev(
                merged,
                Severity::High,
            ) == 0)
            &&& r.message@ == ci_message(
                count_sev(merged, Severity::Critical),
                count_sev(merged, Severity::High),
                count_sev(merged, Severity::Medium),
                count_sev(merged, Severity::Low),
                count_sev(merged, Severity::Info),
            )
            &&& (r.report matches Some(rep) && rep@.vulnerabilities == merged
                && rep@.warnings == Seq::<WarningV>::empty() && rep@.suggestions == Seq::<
                SuggestionV,
            >::empty())
            &&& (r.summary matches Some(s) && s.total_issues as int == merged.len()
                && s.critical_issues as int == count_sev(merged, Severity::Critical)
                && s.high_issues as int == count_sev(merged, Severity::High)
                && s.medium_issues as int == count_sev(merged, Severity::Medium)
                && s.low_issues as int == count_sev(merged, Severity::Low)
                && s.info_issues as int == count_sev(merged, Severity::Info))
        }),
{
    let ghost rvs = reports@.map_values(|p: AnalysisReport| p@);
    let mut reports = reports;
    let mut merged: Vec<Vulnerability> = Vec::new();
    let ghost orig = reports@;
    let ghost mut c: int = 0;
    proof {
        assert(merged@.map_values(|v: Vulnerability| v@) =~= Seq::<VulnerabilityV>::empty());
        assert(reports@ =~= orig.skip(0));
    }
    while reports.len() > 0
        invariant
            rvs == orig.map_values(|p: AnalysisReport| p@),
            0 <= c <= orig.len(),
            reports@ == orig.skip(c),
            reports_vulns_from(rvs, 0) == merged@.map_values(|v: Vulnerability| v@)
                + reports_vulns_from(rvs, c),
        decreases reports@.len(),
    {
        let mut rep = reports.remove(0);
        let ghost repv = rep@;
        proof {
            assert(orig.skip(c)[0] == orig[c]);
            assert(repv == rvs[c]);
            assert(orig.skip(c).skip(1) =~= orig.skip(c + 1));
        }
        let ghost old_map = merged@.map_values(|v: Vulnerability| v@);
        merged.append(&mut rep.vulnerabilities);
        proof {
            assert(merged@.map_values(|v: Vulnerability| v@) =~= old_map + repv.vulnerabilities);
            assert(reports_vulns_from(rvs, c) == repv.vulnerabilities + reports_vulns_from(
                rvs,
                c + 1,
            ));
            c = c + 1;
        }
    }
    proof {
        assert(reports_vulns_from(rvs, c) =~= Seq::<VulnerabilityV>::empty());
        assert(merged@.map_values(|v: Vulnerability| v@) =~= merged@.map_values(
            |v: Vulnerability| v@,
        ) + reports_vulns_from(rvs, c));
    }
    let warnings: Vec<Warning> = Vec::new();
    let suggestions: Vec<Suggestion> = Vec::new();
    let rep = AnalysisReport { vulnerabilities: merged, warnings, suggestions };
    proof {
        assert(rep@.warnings =~= Seq::<WarningV>::empty());
        assert(rep@.suggestions =~= Seq::<SuggestionV>::empty());
    }
    let summary = CiSummary::from_report(&rep);
    let success = summary.critical_issues == 0 && summary.high_issues == 0;
    let message: String = if success {
        "Security analysis passed".to_owned()
    } else {
        let mut m = "Security analysis failed: ".to_owned();
        let cs = usize_to_string(summary.critical_issues);
        m.append(cs.as_str());
        m.append(" critical, ");
        let hs = usize_to_string(summary.high_issues);
        m.append(hs.as_str());
        m.append(" high, ");
        let ms = usize_to_string(summary.medium_issues);
        m.append(ms.as_str());
        m.append(" medium, ");
        let ls = usize_to_string(summary.low_issues);
        m.append(ls.as_str());
        m.append(" low, ");
        let is = usize_to_string(summary.info_issues);
        m.append(is.as_str());
        m.append(" info issues found");
        m
    };
    CiResult { success, message, report: Some(rep), summary: Some(summary) }
}

} // verus!
