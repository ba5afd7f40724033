//! Static analysis for on-chain program source code.
//!
//! The crate parses program source into a structural syntax tree, runs a
//! catalog of built-in security rules over it, lets operators register
//! ad-hoc pattern rules at runtime, and assembles the findings into a
//! report shared by every consumer.

pub mod analyzer;
pub mod builder;
pub mod ci;
pub mod notifications;
pub mod pattern;
pub mod render;
pub mod rules;
pub mod text;
pub mod tree;
pub mod types;
pub mod websocket;

use vstd::prelude::*;

verus! {

use crate::analyzer::dir_vulns_from;
use crate::analyzer::dir_warns_from;
use crate::analyzer::Analyzer;
use crate::analyzer::SourceFile;
use crate::types::AnalysisReport;
use crate::types::SuggestionV;

/// Entry point bundling the analysis pipeline behind one value.
pub struct SolGuard {
    analyzer: Analyzer,
}

impl SolGuard {
    pub fn new() -> (r: Self) {
        SolGuard { analyzer: Analyzer::new() }
    }

    /// Analyze a whole program: every located source file contributes
    /// its findings, and a file that fails to parse contributes one
    /// warning instead of aborting the scan.
    pub fn analyze_program(&self, files: &Vec<SourceFile>) -> (r: AnalysisReport)
        ensures
            r@.vulnerabilities == dir_vulns_from(files@.map_values(|f: SourceFile| f@), 0),
            r@.warnings == dir_warns_from(files@.map_values(|f: SourceFile| f@), 0),
            r@.suggestions == Seq::<SuggestionV>::empty(),
            r@.wf(),
    {
        self.analyzer.analyze_directory(files)
    }
}

} // verus!
