//! Tests for context classification, project root markers and the shell
//! knowledge.

use berri_recall::context::{ContextDetector, DayOfWeek, ProjectType, TimeOfDay};
use berri_recall::project::ProjectDetector;
use berri_recall::shell::{Shell, ShellDetector};

fn entries(names: &[&str]) -> Vec<String> {
    names.iter().map(|n| n.to_string()).collect()
}

#[test]
fn test_time_of_day() {
    let time = ContextDetector::detect_time_of_day(10);
    assert!(matches!(
        time,
        TimeOfDay::Morning | TimeOfDay::Afternoon | TimeOfDay::Evening | TimeOfDay::Night
    ));
    assert_eq!(ContextDetector::detect_time_of_day(6), TimeOfDay::Morning);
    assert_eq!(ContextDetector::detect_time_of_day(11), TimeOfDay::Morning);
    assert_eq!(ContextDetector::detect_time_of_day(12), TimeOfDay::Afternoon);
    assert_eq!(ContextDetector::detect_time_of_day(17), TimeOfDay::Afternoon);
    assert_eq!(ContextDetector::detect_time_of_day(18), TimeOfDay::Evening);
    assert_eq!(ContextDetector::detect_time_of_day(21), TimeOfDay::Evening);
    assert_eq!(ContextDetector::detect_time_of_day(22), TimeOfDay::Night);
    assert_eq!(ContextDetector::detect_time_of_day(5), TimeOfDay::Night);
}

#[test]
fn test_day_of_week() {
    let day = ContextDetector::detect_day_of_week(2);
    assert!(matches!(
        day,
        DayOfWeek::Monday
            | DayOfWeek::Tuesday
            | DayOfWeek::Wednesday
            | DayOfWeek::Thursday
            | DayOfWeek::Friday
            | DayOfWeek::Saturday
            | DayOfWeek::Sunday
    ));
    assert_eq!(ContextDetector::detect_day_of_week(0), DayOfWeek::Monday);
    assert_eq!(ContextDetector::detect_day_of_week(4), DayOfWeek::Friday);
    assert_eq!(ContextDetector::detect_day_of_week(6), DayOfWeek::Sunday);
}

#[test]
fn project_type_follows_marker_priority() {
    assert_eq!(
        ContextDetector::detect_project_type(&entries(&["package.json", "Cargo.toml"])),
        Some(ProjectType::Node)
    );
    assert_eq!(
        ContextDetector::detect_project_type(&entries(&["Cargo.toml", "src"])),
        Some(ProjectType::Rust)
    );
    assert_eq!(
        ContextDetector::detect_project_type(&entries(&["setup.py"])),
        Some(ProjectType::Python)
    );
    assert_eq!(
        ContextDetector::detect_project_type(&entries(&["go.mod"])),
        Some(ProjectType::Go)
    );
    assert_eq!(
        ContextDetector::detect_project_type(&entries(&["pom.xml"])),
        Some(ProjectType::Java)
    );
    assert_eq!(
        ContextDetector::detect_project_type(&entries(&["Gemfile"])),
        Some(ProjectType::Ruby)
    );
    assert_eq!(
        ContextDetector::detect_project_type(&entries(&["README.md"])),
        Some(ProjectType::Other)
    );
}

#[test]
fn test_get_project_name() {
    let name = ProjectDetector::get_project_name("/home/user/my-awesome-project").unwrap();
    assert_eq!(name, "my-awesome-project");
}

#[test]
fn project_name_ignores_trailing_separators() {
    assert_eq!(
        ProjectDetector::get_project_name("/home/user/proj/"),
        Some("proj".to_string())
    );
    assert_eq!(ProjectDetector::get_project_name("/"), None);
    assert_eq!(ProjectDetector::get_project_name(""), None);
    assert_eq!(
        ProjectDetector::get_project_name("plain-name"),
        Some("plain-name".to_string())
    );
}

#[test]
fn test_is_git_repo() {
    assert!(!ProjectDetector::is_git_repo(&entries(&["src", "README.md"])));
    assert!(ProjectDetector::is_git_repo(&entries(&["src", ".git"])));
}

#[test]
fn test_get_markers() {
    let markers = ProjectDetector::get_markers(&entries(&["package.json", ".git", "src"]));
    assert!(markers.contains(&".git".to_string()));
    assert!(markers.contains(&"package.json".to_string()));
    assert_eq!(markers.len(), 2);
}

#[test]
fn is_in_project_needs_a_marker() {
    assert!(ProjectDetector::is_in_project(&entries(&["Cargo.toml"])));
    assert!(!ProjectDetector::is_in_project(&entries(&["notes.txt"])));
    assert!(!ProjectDetector::is_in_project(&entries(&[])));
}

#[test]
fn test_shell_name() {
    assert_eq!(Shell::Bash.name(), "bash");
    assert_eq!(Shell::Zsh.name(), "zsh");
    assert_eq!(Shell::Fish.name(), "fish");
    assert_eq!(Shell::PowerShell.name(), "powershell");
}

#[test]
fn test_hook_filename() {
    assert_eq!(Shell::Bash.hook_filename(), "bash.sh");
    assert_eq!(Shell::Zsh.hook_filename(), "zsh.sh");
    assert_eq!(Shell::Fish.hook_filename(), "fish.fish");
    assert_eq!(Shell::PowerShell.hook_filename(), "powershell.ps1");
}

#[test]
fn test_shell_display() {
    assert_eq!(Shell::Bash.name(), "bash");
    assert_eq!(Shell::Zsh.name(), "zsh");
}

#[test]
fn test_source_command() {
    let path = "/home/user/.recall/bash.sh";

    let bash_cmd = Shell::Bash.source_command(path);
    assert!(bash_cmd.contains("source"));
    assert!(bash_cmd.contains("/home/user/.recall/bash.sh"));

    let fish_cmd = Shell::Fish.source_command(path);
    assert!(fish_cmd.contains("source"));
}

#[test]
fn source_commands_are_exact() {
    assert_eq!(
        Shell::Zsh.source_command("/h/z.sh"),
        "[ -f \"/h/z.sh\" ] && source \"/h/z.sh\""
    );
    assert_eq!(
        Shell::Fish.source_command("/h/f.fish"),
        "test -f \"/h/f.fish\" && source \"/h/f.fish\""
    );
    assert_eq!(Shell::PowerShell.source_command("/h/p.ps1"), ". \"/h/p.ps1\"");
}

#[test]
fn shell_names_map_back_to_shells() {
    assert_eq!(ShellDetector::shell_from_name("bash"), Some(Shell::Bash));
    assert_eq!(ShellDetector::shell_from_name("zsh"), Some(Shell::Zsh));
    assert_eq!(ShellDetector::shell_from_name("fish"), Some(Shell::Fish));
    assert_eq!(ShellDetector::shell_from_name("tcsh"), None);
}
