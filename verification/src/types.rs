//! The report model: findings, locations, severities, and the report
//! that crosses the boundary to every consumer of an analysis.

use vstd::prelude::*;

verus! {

/// Ordered severity ranking of a vulnerability. `Critical` gates CI failure.
#[derive(Clone, Copy, Debug, PartialEq, Eq, Structural)]
pub enum Severity {
    Critical,
    High,
    Medium,
    Low,
    Info,
}

impl Severity {
    /// The catalog name of this severity, as printed in reports.
    pub open spec fn spec_name(self) -> Seq<char> {
        match self {
            Severity::Critical => "Critical"@,
            Severity::High => "High"@,
            Severity::Medium => "Medium"@,
            Severity::Low => "Low"@,
            Severity::Info => "Info"@,
        }
    }

    pub fn as_str(&self) -> (r: &'static str)
        ensures
            r@ == self.spec_name(),
    {
        match self {
            Severity::Critical => "Critical",
            Severity::High => "High",
            Severity::Medium => "Medium",
            Severity::Low => "Low",
            Severity::Info => "Info",
        }
    }
}

/// Mathematical value of a `Location`.
pub struct LocationV {
    pub file: Seq<char>,
    pub line: int,
    pub column: int,
}

impl LocationV {
    /// Locations are 1-based and must always point at a real source position.
    pub open spec fn wf(self) -> bool {
        self.line >= 1 && self.column >= 1
    }
}

/// A source position: file path plus 1-based line and column.
#[derive(Debug)]
pub struct Location {
    pub file: String,
    pub line: usize,
    pub column: usize,
}

impl View for Location {
    type V = LocationV;

    open spec fn view(&self) -> LocationV {
        LocationV { file: self.file@, line: self.line as int, column: self.column as int }
    }
}

/// Mathematical value of a `Vulnerability`.
pub struct VulnerabilityV {
    pub severity: Severity,
    pub title: Seq<char>,
    pub description: Seq<char>,
    pub location: LocationV,
    pub recommendation: Seq<char>,
}

impl VulnerabilityV {
    pub open spec fn wf(self) -> bool {
        self.location.wf()
    }
}

/// A security finding with severity, position and a remediation hint.
#[derive(Debug)]
pub struct Vulnerability {
    pub severity: Severity,
    pub title: String,
    pub description: String,
    pub location: Location,
    pub recommendation: String,
}

impl View for Vulnerability {
    type V = VulnerabilityV;

    open spec fn view(&self) -> VulnerabilityV {
        VulnerabilityV {
            severity: self.severity,
            title: self.title@,
            description: self.description@,
            location: self.location@,
            recommendation: self.recommendation@,
        }
    }
}

/// Mathematical value of a `Warning`.
pub struct WarningV {
    pub title: Seq<char>,
    pub description: Seq<char>,
    pub location: LocationV,
}

impl WarningV {
    pub open spec fn wf(self) -> bool {
        self.location.wf()
    }
}

/// A non-fatal observation attached to a source position.
#[derive(Debug)]
pub struct Warning {
    pub title: String,
    pub description: String,
    pub location: Location,
}

impl View for Warning {
    type V = WarningV;

    open spec fn view(&self) -> WarningV {
        WarningV { title: self.title@, description: self.description@, location: self.location@ }
    }
}

/// Mathematical value of a `Suggestion`.
pub struct SuggestionV {
    pub title: Seq<char>,
    pub description: Seq<char>,
    pub location: LocationV,
}

impl SuggestionV {
    pub open spec fn wf(self) -> bool {
        self.location.wf()
    }
}

/// An advisory improvement attached to a source position.
#[derive(Debug)]
pub struct Suggestion {
    pub title: String,
    pub description: String,
    pub location: Location,
}

impl View for Suggestion {
    type V = SuggestionV;

    open spec fn view(&self) -> SuggestionV {
        SuggestionV { title: self.title@, description: self.description@, location: self.location@ }
    }
}

/// Mathematical value of an `AnalysisReport`.
pub struct AnalysisReportV {
    pub vulnerabilities: Seq<VulnerabilityV>,
    pub warnings: Seq<WarningV>,
    pub suggestions: Seq<SuggestionV>,
}

impl AnalysisReportV {
    pub open spec fn wf(self) -> bool {
        &&& forall|i: int| 0 <= i < self.vulnerabilities.len() ==> (#[trigger] self.vulnerabilities[i]).wf()
        &&& forall|i: int| 0 <= i < self.warnings.len() ==> (#[trigger] self.warnings[i]).wf()
        &&& forall|i: int| 0 <= i < self.suggestions.len() ==> (#[trigger] self.suggestions[i]).wf()
    }
}

/// The result of one scan: produced fresh, immutable once returned.
#[derive(Debug)]
pub struct AnalysisReport {
    pub vulnerabilities: Vec<Vulnerability>,
    pub warnings: Vec<Warning>,
    pub suggestions: Vec<Suggestion>,
}

impl View for AnalysisReport {
    type V = AnalysisReportV;

    open spec fn view(&self) -> AnalysisReportV {
        AnalysisReportV {
            vulnerabilities: self.vulnerabilities@.map_values(|v: Vulnerability| v@),
            warnings: self.warnings@.map_values(|w: Warning| w@),
            suggestions: self.suggestions@.map_values(|s: Suggestion| s@),
        }
    }
}

} // verus!
