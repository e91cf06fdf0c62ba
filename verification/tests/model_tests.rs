//! Tests for the data model: JSON-backed columns, pattern labels, acceptance
//! rates and feedback counters.

use berri_recall::models::{Command, CommandPattern, ExecutionContext, PatternType, Suggestion};

fn command() -> Command {
    Command {
        id: 1,
        project_path: "/test".to_string(),
        command: "ls".to_string(),
        timestamp: "2025-11-25T00:00:00Z".to_string(),
        is_fav: false,
        usage_count: 1,
        execution_time_ms: None,
        exit_code: None,
        tags: None,
        context: None,
    }
}

fn suggestion(accepted: i32, rejected: i32) -> Suggestion {
    Suggestion {
        id: 1,
        project_path: "/test".to_string(),
        context: None,
        suggested_command: "npm test".to_string(),
        reason: None,
        confidence: 800_000,
        times_accepted: accepted,
        times_rejected: rejected,
        created_at: "2025-11-25T00:00:00Z".to_string(),
        last_suggested: None,
    }
}

#[test]
fn test_command_tags() {
    let mut cmd = command();

    assert!(cmd.set_tags(vec!["git".to_string(), "test".to_string()]));
    let tags = cmd.get_tags();
    assert_eq!(tags.len(), 2);
    assert!(tags.contains(&"git".to_string()));
}

#[test]
fn tags_are_stored_as_json_text() {
    let mut cmd = command();
    assert!(cmd.set_tags(vec!["git".to_string(), "test".to_string()]));
    assert_eq!(cmd.tags.as_deref(), Some("[\"git\",\"test\"]"));

    // decoding reads the column, not the argument
    cmd.tags = Some("[\"a\",\"b\",\"c\"]".to_string());
    assert_eq!(
        cmd.get_tags(),
        vec!["a".to_string(), "b".to_string(), "c".to_string()]
    );

    // a malformed column decodes to nothing
    cmd.tags = Some("not json".to_string());
    assert!(cmd.get_tags().is_empty());
    cmd.tags = None;
    assert!(cmd.get_tags().is_empty());
}

#[test]
fn test_suggestion_acceptance_rate() {
    let s = suggestion(8, 2);
    assert_eq!(s.acceptance_rate(), 800_000);
}

#[test]
fn acceptance_rate_without_feedback_is_zero() {
    let s = suggestion(0, 0);
    assert_eq!(s.acceptance_rate(), 0);
}

#[test]
fn feedback_increments_exactly_one_counter() {
    let mut s = suggestion(3, 1);

    s.apply_feedback(true, "2025-11-26T00:00:00Z".to_string());
    s.apply_feedback(true, "2025-11-27T00:00:00Z".to_string());
    assert_eq!(s.times_accepted, 5);
    assert_eq!(s.times_rejected, 1);
    assert_eq!(s.last_suggested.as_deref(), Some("2025-11-27T00:00:00Z"));

    s.apply_feedback(false, "2025-11-28T00:00:00Z".to_string());
    assert_eq!(s.times_accepted, 5);
    assert_eq!(s.times_rejected, 2);
}

#[test]
fn test_pattern_type_display() {
    assert_eq!(PatternType::Sequential.label(), "sequence");
    assert_eq!(PatternType::TimeBased.label(), "time_based");
}

#[test]
fn pattern_rows_decode_their_command_list() {
    let row = CommandPattern {
        id: 1,
        pattern_type: "sequence".to_string(),
        commands: "[\"git add .\",\"git push\"]".to_string(),
        project_path: None,
        confidence_score: 600_000,
        occurrences: 3,
        last_seen: "2025-11-25T00:00:00Z".to_string(),
        metadata: None,
    };
    assert_eq!(
        row.get_commands(),
        vec!["git add .".to_string(), "git push".to_string()]
    );

    let broken = CommandPattern { commands: "{".to_string(), ..row };
    assert!(broken.get_commands().is_empty());
}

#[test]
fn execution_context_decodes_changed_files() {
    let ctx = ExecutionContext {
        id: 1,
        command_id: 1,
        working_directory: None,
        previous_command: None,
        time_of_day: None,
        day_of_week: None,
        git_branch: None,
        files_changed: Some("[\"src/main.rs\"]".to_string()),
    };
    assert_eq!(ctx.get_files_changed(), vec!["src/main.rs".to_string()]);
}
