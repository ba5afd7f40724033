//! Rendering a report as plain text, and the output-format selector of
//! the command-line surface.

use vstd::prelude::*;

verus! {

use crate::text::dec_digits;
use crate::text::str_eq;
use crate::text::usize_to_string;
use crate::types::AnalysisReport;
use crate::types::AnalysisReportV;
use crate::types::SuggestionV;
use crate::types::VulnerabilityV;
use crate::types::WarningV;
use vstd::string::StringExecFns;

/// The output formats the command-line surface accepts.
#[derive(Clone, Copy, PartialEq, Eq, Structural, Debug)]
pub enum OutputFormat {
    Text,
    Json,
}

/// Recognize an output-format selector; anything but the two supported
/// names is rejected.
pub fn parse_format(s: &str) -> (r: Option<OutputFormat>)
    ensures
        r == Some(OutputFormat::Text) <==> s@ == "text"@,
        r == Some(OutputFormat::Json) <==> s@ == "json"@,
        r is None <==> (s@ != "text"@ && s@ != "json"@),
{
    proof {
        reveal_strlit("text");
        reveal_strlit("json");
        assert("text"@[0] == 't');
        assert("json"@[0] == 'j');
        assert("text"@ != "json"@);
    }
    if str_eq(s, "text") {
        Some(OutputFormat::Text)
    } else if str_eq(s, "json") {
        Some(OutputFormat::Json)
    } else {
        None
    }
}

/// The text block rendered for one vulnerability.
pub open spec fn render_vuln(v: VulnerabilityV) -> Seq<char> {
    "\n["@ + v.severity.spec_name() + "] "@ + v.title + "\nLocation: "@ + v.location.file + ":"@
        + dec_digits(v.location.line) + "\nDescription: "@ + v.description + "\nRecommendation: "@
        + v.recommendation + "\n"@
}

/// The text block rendered for one warning.
pub open spec fn render_warning(w: WarningV) -> Seq<char> {
    "\n"@ + w.title + "\nLocation: "@ + w.location.file + ":"@ + dec_digits(w.location.line)
        + "\nDescription: "@ + w.description + "\n"@
}

/// The text block rendered for one suggestion.
pub open spec fn render_suggestion(s: SuggestionV) -> Seq<char> {
    "\n"@ + s.title + "\nLocation: "@ + s.location.file + ":"@ + dec_digits(s.location.line)
        + "\nDescription: "@ + s.description + "\n"@
}

pub open spec fn render_vulns_from(vs: Seq<VulnerabilityV>, i: int) -> Seq<char>
    decreases vs.len() - i,
{
    if i < 0 || i >= vs.len() {
        Seq::empty()
    } else {
        render_vuln(vs[i]) + render_vulns_from(vs, i + 1)
    }
}

pub open spec fn render_warns_from(ws: Seq<WarningV>, i: int) -> Seq<char>
    decreases ws.len() - i,
{
    if i < 0 || i >= ws.len() {
        Seq::empty()
    } else {
        render_warning(ws[i]) + render_warns_from(ws, i + 1)
    }
}

pub open spec fn render_suggs_from(ss: Seq<SuggestionV>, i: int) -> Seq<char>
    decreases ss.len() - i,
{
    if i < 0 || i >= ss.len() {
        Seq::empty()
    } else {
        render_suggestion(ss[i]) + render_suggs_from(ss, i + 1)
    }
}

/// The whole text rendering of a report: each non-empty section under
/// its heading.
pub open spec fn render_report(r: AnalysisReportV) -> Seq<char> {
    (if r.vulnerabilities.len() > 0 {
        "\nVulnerabilities:\n"@ + render_vulns_from(r.vulnerabilities, 0)
    } else {
        Seq::empty()
    }) + (if r.warnings.len() > 0 {
        "\nWarnings:\n"@ + render_warns_from(r.warnings, 0)
    } else {
        Seq::empty()
    }) + (if r.suggestions.len() > 0 {
        "\nSuggestions:\n"@ + render_suggs_from(r.suggestions, 0)
    } else {
        Seq::empty()
    })
}

/// The text of one vulnerability block.
fn vuln_text(v: &crate::types::Vulnerability) -> (r: String)
    ensures
        r@ == render_vuln(v@),
{
    let mut s = "\n[".to_owned();
    s.append(v.severity.as_str());
    s.append("] ");
    s.append(v.title.as_str());
    s.append("\nLocation: ");
    s.append(v.location.file.as_str());
    s.append(":");
    let line = usize_to_string(v.location.line);
    s.append(line.as_str());
    s.append("\nDescription: ");
    s.append(v.description.as_str());
    s.append("\nRecommendation: ");
    s.append(v.recommendation.as_str());
    s.append("\n");
    proof {
        assert(s@ =~= render_vuln(v@));
    }
    s
}

/// The text of one warning block.
fn warning_text(w: &crate::types::Warning) -> (r: String)
    ensures
        r@ == render_warning(w@),
{
    let mut s = "\n".to_owned();
    s.append(w.title.as_str());
    s.append("\nLocation: ");
    s.append(w.location.file.as_str());
    s.append(":");
    let line = usize_to_string(w.location.line);
    s.append(line.as_str());
    s.append("\nDescription: ");
    s.append(w.description.as_str());
    s.append("\n");
    proof {
        assert(s@ =~= render_warning(w@));
    }
    s
}

/// The text of one suggestion block.
fn suggestion_text(sg: &crate::types::Suggestion) -> (r: String)
    ensures
        r@ == render_suggestion(sg@),
{
    let mut s = "\n".to_owned();
    s.append(sg.title.as_str());
    s.append("\nLocation: ");
    s.append(sg.location.file.as_str());
    s.append(":");
    let line = usize_to_string(sg.location.line);
    s.append(line.as_str());
    s.append("\nDescription: ");
    s.append(sg.description.as_str());
    s.append("\n");
    proof {
        assert(s@ =~= render_suggestion(sg@));
    }
    s
}

/// Render a report as plain text for the command-line surface.
pub fn format_report(report: &AnalysisReport) -> (out: String)
    ensures
        out@ == render_report(report@),
{
    let ghost sec1: Seq<char> = if report@.vulnerabilities.len() > 0 {
        "\nVulnerabilities:\n"@ + render_vulns_from(report@.vulnerabilities, 0)
    } else {
        Seq::empty()
    };
    let ghost sec2: Seq<char> = if report@.warnings.len() > 0 {
        "\nWarnings:\n"@ + render_warns_from(report@.warnings, 0)
    } else {
        Seq::empty()
    };
    let ghost sec3: Seq<char> = if report@.suggestions.len() > 0 {
        "\nSuggestions:\n"@ + render_suggs_from(report@.suggestions, 0)
    } else {
        Seq::empty()
    };
    let mut out = String::new();
    if report.vulnerabilities.len() > 0 {
        out.append("\nVulnerabilities:\n");
        let n = report.vulnerabilities.len();
        let mut i: usize = 0;
        while i < n
            invariant
                n == report@.vulnerabilities.len(),
                0 <= i <= n,
                out@ + render_vulns_from(report@.vulnerabilities, i as int)
                    == "\nVulnerabilities:\n"@ + render_vulns_from(report@.vulnerabilities, 0),
            decreases n - i,
        {
            let piece = vuln_text(&report.vulnerabilities[i]);
            out.append(piece.as_str());
            proof {
                assert(render_vulns_from(report@.vulnerabilities, i as int) == render_vuln(
                    report@.vulnerabilities[i as int],
                ) + render_vulns_from(report@.vulnerabilities, i + 1));
            }
            i = i + 1;
        }
        proof {
            assert(render_vulns_from(report@.vulnerabilities, i as int) =~= Seq::<char>::empty());
            assert(out@ =~= out@ + render_vulns_from(report@.vulnerabilities, i as int));
        }
    }
    proof {
        assert(out@ == sec1);
    }
    if report.warnings.len() > 0 {
        out.append("\nWarnings:\n");
        let n = report.warnings.len();
        let mut i: usize = 0;
        while i < n
            invariant
                n == report@.warnings.len(),
                0 <= i <= n,
                out@ + render_warns_from(report@.warnings, i as int) == sec1 + "\nWarnings:\n"@
                    + render_warns_from(report@.warnings, 0),
            decreases n - i,
        {
            let piece = warning_text(&report.warnings[i]);
            out.append(piece.as_str());
            proof {
                assert(render_warns_from(report@.warnings, i as int) == render_warning(
                    report@.warnings[i as int],
                ) + render_warns_from(report@.warnings, i + 1));
            }
            i = i + 1;
        }
        proof {
            assert(render_warns_from(report@.warnings, i as int) =~= Seq::<char>::empty());
            assert(out@ =~= out@ + render_warns_from(report@.warnings, i as int));
        }
    }
    proof {
        assert(out@ =~= sec1 + sec2);
    }
    if report.suggestions.len() > 0 {
        out.append("\nSuggestions:\n");
        let n = report.suggestions.len();
        let mut i: usize = 0;
        while i < n
            invariant
                n == report@.suggestions.len(),
                0 <= i <= n,
                out@ + render_suggs_from(report@.suggestions, i as int) == sec1 + sec2
                    + "\nSuggestions:\n"@ + render_suggs_from(report@.suggestions, 0),
            decreases n - i,
        {
            let piece = suggestion_text(&report.suggestions[i]);
            out.append(piece.as_str());
            proof {
                assert(render_suggs_from(report@.suggestions, i as int) == render_suggestion(
                    report@.suggestions[i as int],
                ) + render_suggs_from(report@.suggestions, i + 1));
            }
            i = i + 1;
        }
        proof {
            assert(render_suggs_from(report@.suggestions, i as int) =~= Seq::<char>::empty());
            assert(out@ =~= out@ + render_suggs_from(report@.suggestions, i as int));
        }
    }
    proof {
        assert(out@ =~= render_report(report@));
    }
    out
}

} // verus!
