//! Pattern-mining and suggestion-scoring engine for a shell-command history.
//!
//! The engine consumes ordered command histories and a context snapshot and
//! produces scored command patterns and ranked, explainable suggestions.
//! Durable storage, context sensing and shell integration are collaborators
//! that hand the engine plain values; the engine itself is pure.
//!
//! Confidence values and scores are fixed-point fractions of [`scorer::SCALE`]:
//! the integer `n` stands for the real number `n / SCALE`, so `SCALE` itself
//! is 1.0 and 0 is 0.0.

pub mod analyzer;
pub mod context;
pub mod models;
pub mod pattern_detector;
pub mod project;
pub mod scorer;
pub mod suggestion_engine;
pub mod shell;
pub mod strutil;

pub use analyzer::{AnalysisReport, Analyzer};
pub use context::Context;
pub use models::{Command, CommandInput, PatternType, Suggestion};
pub use pattern_detector::{Pattern, PatternDetector};
pub use scorer::Scorer;
pub use scorer::SCALE;
pub use suggestion_engine::{SmartSuggestion, SuggestionEngine};
