//! Tests for the pattern miner: category extraction, confidence formulas,
//! sequential and frequency detection, and persistence qualification.

use berri_recall::models::{Command, PatternType};
use berri_recall::pattern_detector::PatternDetector;

fn event(text: &str, usage: i32) -> Command {
    Command {
        id: 1,
        project_path: "/test".to_string(),
        command: text.to_string(),
        timestamp: "2025-11-25T00:00:00Z".to_string(),
        is_fav: false,
        usage_count: usage,
        execution_time_ms: None,
        exit_code: Some(0),
        tags: None,
        context: None,
    }
}

#[test]
fn test_extract_category() {
    let detector = PatternDetector::new();

    assert_eq!(detector.extract_category("git add ."), "git");
    assert_eq!(detector.extract_category("npm install"), "npm");
    assert_eq!(detector.extract_category("docker ps"), "docker");
}

#[test]
fn extract_category_handles_blanks() {
    let detector = PatternDetector::new();

    assert_eq!(detector.extract_category(""), "other");
    assert_eq!(detector.extract_category("   "), "other");
    assert_eq!(detector.extract_category("  cargo   build"), "cargo");
    assert_eq!(detector.extract_category("ls"), "ls");
}

#[test]
fn test_confidence_calculation() {
    let detector = PatternDetector::new();

    let confidence = detector.calculate_sequence_confidence(5, 3);
    assert!(confidence >= 600_000);
    assert!(confidence <= 1_000_000);
}

#[test]
fn sequence_confidence_is_exact() {
    let detector = PatternDetector::new();

    // min(3/10, 0.7) + min(3/10, 0.3) = 0.3 + 0.3
    assert_eq!(detector.calculate_sequence_confidence(3, 3), 600_000);
    // min(2/10, 0.7) + min(2/10, 0.3) = 0.2 + 0.2
    assert_eq!(detector.calculate_sequence_confidence(2, 2), 400_000);
    // both terms capped: 0.7 + 0.3
    assert_eq!(detector.calculate_sequence_confidence(12, 9), 1_000_000);
}

#[test]
fn test_detect_sequential_patterns() {
    let detector = PatternDetector::new();

    // The nine-event history: add, commit, push repeated three times, as the
    // store hands it back (windowed in fetch order).
    let mut history: Vec<Command> = Vec::new();
    for _ in 0..3 {
        history.push(event("git add .", 1));
        history.push(event("git commit -m 'test'", 1));
        history.push(event("git push", 1));
    }

    let patterns = detector.detect_patterns(&history, &Vec::new(), Some("/test"));
    assert!(!patterns.is_empty());

    let sequential: Vec<_> = patterns
        .iter()
        .filter(|p| matches!(p.pattern_type, PatternType::Sequential))
        .collect();
    assert!(!sequential.is_empty());

    // The three-command cycle must surface with its exact count and a
    // confidence clearing the persistence threshold.
    let expected = vec![
        "git add .".to_string(),
        "git commit -m 'test'".to_string(),
        "git push".to_string(),
    ];
    let found = sequential
        .iter()
        .find(|p| p.commands == expected)
        .expect("the repeated three-command window must be detected");
    assert!(found.occurrences >= 3);
    assert_eq!(found.occurrences, 3);
    assert!(found.confidence >= 600_000);
    assert_eq!(found.confidence, 600_000);
}

#[test]
fn short_history_yields_no_sequential_patterns() {
    let detector = PatternDetector::new();
    let history = vec![event("git add .", 1), event("git push", 1)];

    let patterns = detector.detect_patterns(&history, &Vec::new(), None);
    assert!(patterns.is_empty());
}

#[test]
fn frequency_pattern_for_heavily_used_category() {
    let detector = PatternDetector::new();

    // Three distinct git commands, each used 15 times: average usage 15,
    // confidence min(15/20, 0.95) = 0.75, above the 0.6 threshold.
    let most_used = vec![
        event("git status", 15),
        event("git add .", 15),
        event("git push", 15),
    ];

    let patterns = detector.detect_frequency_patterns(&most_used, Some("/test"));
    assert_eq!(patterns.len(), 1);
    let p = &patterns[0];
    assert!(matches!(p.pattern_type, PatternType::Frequency));
    assert_eq!(p.commands.len(), 3);
    assert_eq!(p.commands[0], "git status");
    assert_eq!(p.occurrences, 45);
    assert_eq!(p.confidence, 750_000);
    assert!(p.confidence >= 600_000);
    assert_eq!(p.project_path.as_deref(), Some("/test"));
}

#[test]
fn frequency_pattern_needs_average_usage_of_twelve() {
    let detector = PatternDetector::new();

    // Average usage 10 gives confidence 0.5, below the threshold: no pattern.
    let low = vec![
        event("git status", 10),
        event("git add .", 10),
        event("git push", 10),
    ];
    assert!(detector.detect_frequency_patterns(&low, None).is_empty());

    // Average usage 12 gives confidence 0.6, right at the threshold.
    let at = vec![
        event("git status", 12),
        event("git add .", 12),
        event("git push", 12),
    ];
    let patterns = detector.detect_frequency_patterns(&at, None);
    assert_eq!(patterns.len(), 1);
    assert_eq!(patterns[0].confidence, 600_000);
}

#[test]
fn frequency_pattern_needs_three_members() {
    let detector = PatternDetector::new();

    let most_used = vec![event("git status", 50), event("git push", 50)];
    assert!(detector.detect_frequency_patterns(&most_used, None).is_empty());
}

#[test]
fn patterns_to_store_keeps_only_confident_ones() {
    let detector = PatternDetector::new();

    let mut history: Vec<Command> = Vec::new();
    for _ in 0..3 {
        history.push(event("a", 1));
        history.push(event("b", 1));
        history.push(event("c", 1));
    }
    let patterns = detector.detect_patterns(&history, &Vec::new(), None);
    let stored = detector.patterns_to_store(&patterns);
    assert!(stored.iter().all(|p| p.confidence >= 600_000));
    assert!(stored
        .iter()
        .any(|p| p.commands == vec!["a".to_string(), "b".to_string(), "c".to_string()]));
    // the two-command windows score 0.5 and stay out
    let kept = patterns.iter().filter(|p| p.confidence >= 600_000).count();
    assert_eq!(stored.len(), kept);
    assert!(stored.len() < patterns.len());
}

#[test]
fn pattern_metadata_is_the_expected_json() {
    let detector = PatternDetector::new();
    let metadata = detector.pattern_metadata_json("2025-11-25T00:00:00Z");
    assert_eq!(
        metadata,
        "{\"detected_at\":\"2025-11-25T00:00:00Z\",\"method\":\"auto\"}"
    );
    // and it is exactly what the JSON library would produce
    let value: serde_json::Value = serde_json::from_str(&metadata).unwrap();
    assert_eq!(value["method"], "auto");
    assert_eq!(value["detected_at"], "2025-11-25T00:00:00Z");
}
