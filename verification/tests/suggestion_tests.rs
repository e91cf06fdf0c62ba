//! Tests for the suggestion engine: prediction, the three suggestion
//! sources, ranking and truncation, and the analyzer composition.

use berri_recall::analyzer::Analyzer;
use berri_recall::context::{Context, DayOfWeek, ProjectType, TimeOfDay};
use berri_recall::models::Command;
use berri_recall::pattern_detector::PatternDetector;
use berri_recall::suggestion_engine::{SmartSuggestion, SuggestionEngine};

fn event(text: &str, usage: i32) -> Command {
    Command {
        id: 1,
        project_path: "/test".to_string(),
        command: text.to_string(),
        timestamp: "2025-11-25T00:00:00Z".to_string(),
        is_fav: false,
        usage_count: usage,
        execution_time_ms: None,
        exit_code: Some(0),
        tags: None,
        context: None,
    }
}

fn snapshot(
    day: DayOfWeek,
    time: TimeOfDay,
    branch: Option<&str>,
    project: Option<ProjectType>,
) -> Context {
    Context {
        working_directory: "/test".to_string(),
        time_of_day: time,
        day_of_week: day,
        git_branch: branch.map(|b| b.to_string()),
        project_type: project,
    }
}

fn candidate(command: &str, confidence: u64) -> SmartSuggestion {
    SmartSuggestion {
        command: command.to_string(),
        reason: "because".to_string(),
        confidence,
    }
}

#[test]
fn test_predict_next_in_sequence() {
    let engine = SuggestionEngine::new();

    let sequence = vec![
        "git add .".to_string(),
        "git commit".to_string(),
        "git push".to_string(),
    ];

    let next = engine.predict_next_in_sequence("git add .", &sequence);
    assert_eq!(next, Some("git commit".to_string()));

    let next2 = engine.predict_next_in_sequence("git commit", &sequence);
    assert_eq!(next2, Some("git push".to_string()));
}

#[test]
fn predict_next_has_no_successor_at_the_end() {
    let engine = SuggestionEngine::new();
    let sequence = vec![
        "git add .".to_string(),
        "git commit".to_string(),
        "git push".to_string(),
    ];

    assert_eq!(engine.predict_next_in_sequence("git push", &sequence), None);
    assert_eq!(engine.predict_next_in_sequence("cargo build", &sequence), None);
}

#[test]
fn pattern_suggestions_follow_the_last_command() {
    let detector = PatternDetector::new();
    let engine = SuggestionEngine::new();

    let mut history: Vec<Command> = Vec::new();
    for _ in 0..3 {
        history.push(event("git add .", 1));
        history.push(event("git commit", 1));
        history.push(event("git push", 1));
    }
    let patterns = detector.detect_patterns(&history, &Vec::new(), None);

    // the most recent command is the first of the recency-ordered fetch
    let suggestions = engine.suggest_from_patterns(&patterns, &history);
    assert!(!suggestions.is_empty());
    let s = suggestions
        .iter()
        .find(|s| s.command == "git commit")
        .expect("the usual successor of 'git add .' must be suggested");
    assert_eq!(s.reason, "You usually run 'git commit' after 'git add .'");

    // no recent command, no pattern-based suggestions
    assert!(engine.suggest_from_patterns(&patterns, &Vec::new()).is_empty());
}

#[test]
fn context_suggestions_follow_the_project_type() {
    let engine = SuggestionEngine::new();

    let rust = engine.suggest_from_context(&snapshot(
        DayOfWeek::Tuesday,
        TimeOfDay::Night,
        None,
        Some(ProjectType::Rust),
    ));
    assert_eq!(rust.len(), 2);
    assert_eq!(rust[0].command, "cargo build");
    assert_eq!(rust[0].confidence, 700_000);
    assert_eq!(rust[1].command, "cargo test");
    assert_eq!(rust[1].confidence, 650_000);

    let node = engine.suggest_from_context(&snapshot(
        DayOfWeek::Tuesday,
        TimeOfDay::Night,
        None,
        Some(ProjectType::Node),
    ));
    assert_eq!(node.len(), 2);
    assert_eq!(node[0].command, "npm install");
    assert_eq!(node[1].command, "npm test");

    let go = engine.suggest_from_context(&snapshot(
        DayOfWeek::Tuesday,
        TimeOfDay::Night,
        None,
        Some(ProjectType::Go),
    ));
    assert!(go.is_empty());
}

#[test]
fn feature_branch_suggests_a_push() {
    let engine = SuggestionEngine::new();

    let on_feature = engine.suggest_from_context(&snapshot(
        DayOfWeek::Tuesday,
        TimeOfDay::Night,
        Some("feature/login"),
        None,
    ));
    assert_eq!(on_feature.len(), 1);
    assert_eq!(on_feature[0].command, "git push");
    assert_eq!(on_feature[0].confidence, 600_000);
    assert_eq!(
        on_feature[0].reason,
        "On feature branch 'feature/login': push changes"
    );

    let on_main = engine.suggest_from_context(&snapshot(
        DayOfWeek::Tuesday,
        TimeOfDay::Night,
        Some("main"),
        None,
    ));
    assert!(on_main.is_empty());
}

#[test]
fn time_suggestions_cover_monday_morning_and_friday_afternoon() {
    let engine = SuggestionEngine::new();

    let monday = engine.suggest_from_time(&snapshot(
        DayOfWeek::Monday,
        TimeOfDay::Morning,
        None,
        None,
    ));
    assert_eq!(monday.len(), 1);
    assert_eq!(monday[0].command, "git pull");
    assert_eq!(monday[0].confidence, 650_000);

    let friday = engine.suggest_from_time(&snapshot(
        DayOfWeek::Friday,
        TimeOfDay::Afternoon,
        None,
        None,
    ));
    assert_eq!(friday.len(), 1);
    assert_eq!(friday[0].command, "git status");
    assert_eq!(friday[0].confidence, 600_000);

    let tuesday = engine.suggest_from_time(&snapshot(
        DayOfWeek::Tuesday,
        TimeOfDay::Evening,
        None,
        None,
    ));
    assert!(tuesday.is_empty());
}

#[test]
fn ranking_orders_by_confidence_and_caps_at_five() {
    let engine = SuggestionEngine::new();

    let ranked = engine.rank_suggestions(vec![
        candidate("a", 900_000),
        candidate("b", 500_000),
        candidate("c", 700_000),
    ]);
    let confidences: Vec<u64> = ranked.iter().map(|s| s.confidence).collect();
    assert_eq!(confidences, vec![900_000, 700_000, 500_000]);

    let seven: Vec<SmartSuggestion> = (0..7)
        .map(|i| candidate("x", 100_000 * (i as u64 + 1)))
        .collect();
    let ranked7 = engine.rank_suggestions(seven);
    assert_eq!(ranked7.len(), 5);
    let confidences7: Vec<u64> = ranked7.iter().map(|s| s.confidence).collect();
    assert_eq!(
        confidences7,
        vec![700_000, 600_000, 500_000, 400_000, 300_000]
    );
}

#[test]
fn test_generate_suggestions() {
    let engine = SuggestionEngine::new();
    let detector = PatternDetector::new();

    let recent = vec![
        event("git add .", 1),
        event("git commit -m 'test'", 1),
        event("git push", 1),
    ];
    let patterns = detector.detect_patterns(&recent, &Vec::new(), Some("/test"));
    let context = snapshot(
        DayOfWeek::Monday,
        TimeOfDay::Morning,
        None,
        Some(ProjectType::Rust),
    );

    let suggestions = engine.generate_suggestions(&context, &patterns, &recent);

    assert!(!suggestions.is_empty());
    assert!(suggestions.len() <= 5);
    // highest confidence first
    for pair in suggestions.windows(2) {
        assert!(pair[0].confidence >= pair[1].confidence);
    }
    assert_eq!(suggestions[0].command, "cargo build");
}

#[test]
fn test_analyze() {
    let analyzer = Analyzer::new();

    let mut history: Vec<Command> = Vec::new();
    for _ in 0..3 {
        history.push(event("git add .", 1));
        history.push(event("git commit -m 'test'", 1));
        history.push(event("git push", 1));
    }
    let most_used = vec![
        event("git add .", 15),
        event("git commit -m 'test'", 15),
        event("git push", 15),
    ];
    let context = snapshot(DayOfWeek::Tuesday, TimeOfDay::Night, None, None);

    let report = analyzer.analyze(&history, &most_used, Some("/test"), &context);

    assert!(report.patterns_found > 0 || report.suggestions_generated > 0);
    assert_eq!(report.patterns_found, report.patterns.len());
    assert_eq!(report.suggestions_generated, report.suggestions.len());
}
