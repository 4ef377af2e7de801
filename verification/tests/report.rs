use custom_completion_zsh::config::ToolConfig;
use custom_completion_zsh::report::{
    error_line, failure_message, fpath_hint, no_settings, status_message, tool_line, Outcome,
    EXIT_FATAL, EXIT_NO_SETTINGS, EXIT_OK,
};

#[test]
fn status_message_of_a_kept_file() {
    assert_eq!(status_message(Outcome::Kept, "rustup completions zsh"), "Kept: rustup completions zsh");
}

#[test]
fn status_message_of_a_completed_file() {
    assert_eq!(
        status_message(Outcome::Completed, "rustup completions zsh"),
        "Completed: rustup completions zsh"
    );
}

#[test]
fn status_message_of_a_failed_generation() {
    assert_eq!(status_message(Outcome::Failed, "gh completion -s zsh"), "Failed: gh completion -s zsh");
}

#[test]
fn status_message_of_an_empty_command() {
    assert_eq!(status_message(Outcome::Completed, ""), "Completed: ");
    assert_eq!(status_message(Outcome::Kept, ""), "Kept: ");
    assert_eq!(status_message(Outcome::Failed, ""), "Failed: ");
}

#[test]
fn failure_message_gives_the_reason() {
    assert_eq!(
        failure_message("gh completion -s zsh", "No such file or directory (os error 2)"),
        "Failed: gh completion -s zsh: No such file or directory (os error 2)"
    );
    assert_eq!(failure_message("", ""), "Failed: : ");
}

#[test]
fn fpath_hint_names_the_directory() {
    assert_eq!(
        fpath_hint("/home/ann/.local/share/zsh/custom-completion-zsh"),
        "Add /home/ann/.local/share/zsh/custom-completion-zsh to your fpath"
    );
}

#[test]
fn tool_line_shows_name_and_command() {
    let tool = ToolConfig { name: "gh".to_string(), command: "gh completion -s zsh".to_string() };
    assert_eq!(tool_line(&tool), "name: gh exec: gh completion -s zsh");
}

#[test]
fn error_line_is_prefixed() {
    assert_eq!(error_line("Permission denied (os error 13)"), "Error: Permission denied (os error 13)");
}

#[test]
fn no_settings_line() {
    assert_eq!(no_settings(), "No settings found");
}

#[test]
fn exit_statuses() {
    assert_eq!(EXIT_OK, 0);
    assert_eq!(EXIT_NO_SETTINGS, 1);
    assert_eq!(EXIT_FATAL, 256);
}
