//! Analyzer: the composition root that runs the pattern miner and then the
//! suggestion engine over one pre-fetched snapshot of the history, and
//! packages both result sets into one report.

use vstd::prelude::*;
use crate::context::Context;
use crate::models::Command;
use crate::pattern_detector::{
    frequent_categories_present, frequent_windows_present, opt_str_view, texts_of,
    valid_frequency_pattern, valid_sequential_for_some_window, windows_of, Pattern,
    PatternDetector,
};
use crate::suggestion_engine::{
    all_suggestion_views, sorted_desc, sugg_view, SmartSuggestion, SuggestionEngine,
    MAX_SUGGESTIONS,
};

verus! {

/// The packaged outcome of one analysis run: the detected patterns and the
/// generated suggestions, with their counts.
pub struct AnalysisReport {
    pub patterns_found: usize,
    pub suggestions_generated: usize,
    pub patterns: Vec<Pattern>,
    pub suggestions: Vec<SmartSuggestion>,
}

/// Runs the pattern miner and then the suggestion engine; no logic of its
/// own.
pub struct Analyzer {
    pub pattern_detector: PatternDetector,
    pub suggestion_engine: SuggestionEngine,
}

impl Analyzer {
    /// Create a new analyzer.
    pub fn new() -> (r: Analyzer) {
        Analyzer { pattern_detector: PatternDetector::new(), suggestion_engine: SuggestionEngine::new() }
    }

    /// Run a full analysis over one pre-fetched snapshot: detect patterns in
    /// the history, generate suggestions from those patterns and the context
    /// snapshot, and report both with their counts. The report's patterns
    /// carry the miner's guarantees; its suggestions are the ranked top
    /// candidates derived from exactly those patterns.
    pub fn analyze(
        &self,
        recent: &Vec<Command>,
        most_used: &Vec<Command>,
        project_path: Option<&str>,
        context: &Context,
    ) -> (report: AnalysisReport)
        requires
            forall|t: int| 0 <= t < most_used@.len() ==> (#[trigger] most_used@[t]).usage_count
                >= 1,
            most_used@.len() <= 0x1000_0000,
        ensures
            report.patterns_found == report.patterns@.len(),
            report.suggestions_generated == report.suggestions@.len(),
            forall|k: int|
                0 <= k < report.patterns@.len() ==> valid_sequential_for_some_window(
                    #[trigger] report.patterns@[k],
                    texts_of(recent@),
                ) || valid_frequency_pattern(
                    report.patterns@[k],
                    most_used@,
                    opt_str_view(project_path),
                ),
            recent@.len() >= 3 ==> frequent_windows_present(
                report.patterns@,
                windows_of(texts_of(recent@), 2),
            ),
            recent@.len() >= 3 ==> frequent_windows_present(
                report.patterns@,
                windows_of(texts_of(recent@), 3),
            ),
            recent@.len() >= 3 ==> frequent_windows_present(
                report.patterns@,
                windows_of(texts_of(recent@), 4),
            ),
            recent@.len() >= 3 ==> frequent_windows_present(
                report.patterns@,
                windows_of(texts_of(recent@), 5),
            ),
            frequent_categories_present(report.patterns@, most_used@),
            sorted_desc(report.suggestions@),
            report.suggestions@.len() == if all_suggestion_views(
                *context,
                report.patterns@,
                recent@,
            ).len() < MAX_SUGGESTIONS {
                all_suggestion_views(*context, report.patterns@, recent@).len() as int
            } else {
                MAX_SUGGESTIONS as int
            },
            forall|k: int|
                0 <= k < report.suggestions@.len() ==> all_suggestion_views(
                    *context,
                    report.patterns@,
                    recent@,
                ).contains(sugg_view(#[trigger] report.suggestions@[k])),
    {
        let patterns = self.pattern_detector.detect_patterns(recent, most_used, project_path);
        let suggestions = self.suggestion_engine.generate_suggestions(context, &patterns, recent);
        let patterns_found = patterns.len();
        let suggestions_generated = suggestions.len();
        AnalysisReport { patterns_found, suggestions_generated, patterns, suggestions }
    }
}

} // verus!
