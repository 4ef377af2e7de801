//! What a run tells the user: the lines it prints and the status it exits
//! with.

use vstd::prelude::*;
use vstd::string::*;
use crate::config::{ToolConfig, ToolView};

verus! {

/// The exit status of a run that went through.
pub const EXIT_OK: i32 = 0;

/// The exit status of a run that found no usable configuration file.
pub const EXIT_NO_SETTINGS: i32 = 1;

/// The exit status of a run that could not recreate the completion
/// directory or write a completion file.
///
/// A POSIX parent sees only the low eight bits of an exit status, which are
/// zero here: it cannot tell such a run from one that went through.
pub const EXIT_FATAL: i32 = 256;

/// The texts of a sequence of strings, in the same order.
pub open spec fn texts(lines: Seq<String>) -> Seq<Seq<char>> {
    Seq::new(lines.len(), |i: int| lines[i]@)
}

/// How the generation of one completion file ended.
#[derive(Clone, Copy, Debug, PartialEq, Eq, Structural)]
pub enum Outcome {
    /// The file was there already and was left as it was.
    Kept,
    /// The command ran and its output was written to the file.
    Completed,
    /// The command could not be started, and the file was left as it was.
    Failed,
}

/// The status line of a tool: the outcome, a colon and the command line.
pub open spec fn status_message_spec(outcome: Outcome, command: Seq<char>) -> Seq<char> {
    match outcome {
        Outcome::Kept => "Kept: "@ + command,
        Outcome::Completed => "Completed: "@ + command,
        Outcome::Failed => "Failed: "@ + command,
    }
}

/// The status line of a tool whose command could not be started: the status
/// line of a failed generation, a colon and the reason.
pub open spec fn failure_message_spec(command: Seq<char>, reason: Seq<char>) -> Seq<char> {
    status_message_spec(Outcome::Failed, command) + ": "@ + reason
}

/// The line that closes a run: the directory to add to zsh's `fpath`.
pub open spec fn fpath_hint_spec(dir: Seq<char>) -> Seq<char> {
    "Add "@ + dir + " to your fpath"@
}

/// The line that shows one configured tool.
pub open spec fn tool_line_spec(tool: ToolView) -> Seq<char> {
    "name: "@ + tool.name + " exec: "@ + tool.command
}

/// The line that reports an error: a condition that ends the run, or a
/// completion directory that could not be removed.
pub open spec fn error_line_spec(reason: Seq<char>) -> Seq<char> {
    "Error: "@ + reason
}

/// The line that reports a missing or unusable configuration file.
pub open spec fn no_settings_spec() -> Seq<char> {
    "No settings found"@
}

/// The status line of a tool whose command line is `command`.
pub fn status_message(outcome: Outcome, command: &str) -> (line: String)
    ensures
        line@ == status_message_spec(outcome, command@),
{
    let mut line = match outcome {
        Outcome::Kept => String::from_str("Kept: "),
        Outcome::Completed => String::from_str("Completed: "),
        Outcome::Failed => String::from_str("Failed: "),
    };
    line.append(command);
    line
}

/// The status line of a tool whose command line `command` could not be
/// started, for `reason`.
pub fn failure_message(command: &str, reason: &str) -> (line: String)
    ensures
        line@ == failure_message_spec(command@, reason@),
{
    let mut line = status_message(Outcome::Failed, command);
    line.append(": ");
    line.append(reason);
    line
}

/// The line that names `dir` as the directory to add to zsh's `fpath`.
pub fn fpath_hint(dir: &str) -> (line: String)
    ensures
        line@ == fpath_hint_spec(dir@),
{
    let mut line = String::from_str("Add ");
    line.append(dir);
    line.append(" to your fpath");
    line
}

/// The line that shows `tool`.
pub fn tool_line(tool: &ToolConfig) -> (line: String)
    ensures
        line@ == tool_line_spec(tool@),
{
    let mut line = String::from_str("name: ");
    line.append(tool.name.as_str());
    line.append(" exec: ");
    line.append(tool.command.as_str());
    line
}

/// The line that reports the error `reason`.
pub fn error_line(reason: &str) -> (line: String)
    ensures
        line@ == error_line_spec(reason@),
{
    let mut line = String::from_str("Error: ");
    line.append(reason);
    line
}

/// The line that reports a missing or unusable configuration file.
pub fn no_settings() -> (line: String)
    ensures
        line@ == no_settings_spec(),
{
    String::from_str("No settings found")
}

} // verus!
