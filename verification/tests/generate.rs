use custom_completion_zsh::config::ToolConfig;
use custom_completion_zsh::generate::{Generation, Reply, Request, Stage};
use custom_completion_zsh::report::Outcome;

fn tool(name: &str, command: &str) -> ToolConfig {
    ToolConfig { name: name.to_string(), command: command.to_string() }
}

fn run_request(command: &str) -> Request {
    Request::Run { program: "sh".to_string(), args: vec!["-c".to_string(), command.to_string()] }
}

#[test]
fn generation_starts_by_probing_its_file() {
    let (generation, first) = Generation::start(tool("git", "git completion"), "/d", true);
    assert_eq!(first, Request::Probe { path: "/d/_git".to_string() });
    assert_eq!(generation.path, "/d/_git");
    assert_eq!(generation.tool, tool("git", "git completion"));
    assert!(generation.keep);
    assert_eq!(generation.stage, Stage::Probing);
    assert!(!generation.finished());
}

#[test]
fn existing_file_is_kept_when_asked() {
    let (mut generation, _) = Generation::start(tool("git", "git completion"), "/d", true);
    let next = generation.step(Reply::Probed { exists: true });
    assert_eq!(
        next,
        Some(Request::Report {
            outcome: Outcome::Kept,
            message: "Kept: git completion".to_string()
        })
    );
    assert!(generation.finished());
}

#[test]
fn missing_file_is_generated_when_keeping() {
    let (mut generation, _) = Generation::start(tool("git", "git completion"), "/d", true);
    let next = generation.step(Reply::Probed { exists: false });
    assert_eq!(next, Some(run_request("git completion")));
    assert_eq!(generation.stage, Stage::Running);
}

#[test]
fn existing_file_is_regenerated_when_not_keeping() {
    let (mut generation, _) = Generation::start(tool("git", "git completion"), "/d", false);
    let next = generation.step(Reply::Probed { exists: true });
    assert_eq!(next, Some(run_request("git completion")));
    assert_eq!(generation.stage, Stage::Running);
}

#[test]
fn missing_file_is_generated_when_not_keeping() {
    let (mut generation, _) = Generation::start(tool("git", "git completion"), "/d", false);
    let next = generation.step(Reply::Probed { exists: false });
    assert_eq!(next, Some(run_request("git completion")));
}

#[test]
fn command_is_one_shell_command_line() {
    let (mut generation, _) = Generation::start(tool("x", "a b | c > 'd e'"), "/d", false);
    let next = generation.step(Reply::Probed { exists: false });
    assert_eq!(
        next,
        Some(Request::Run {
            program: "sh".to_string(),
            args: vec!["-c".to_string(), "a b | c > 'd e'".to_string()]
        })
    );
}

#[test]
fn output_is_written_byte_for_byte() {
    let bytes: Vec<u8> = vec![0, 255, b'#', b'\n', 0xC3, 0x28, b'\r', b'\n'];
    let (mut generation, _) = Generation::start(tool("git", "git completion"), "/d", false);
    generation.step(Reply::Probed { exists: false });
    let next = generation.step(Reply::Ran { stdout: bytes.clone() });
    assert_eq!(next, Some(Request::Write { path: "/d/_git".to_string(), bytes }));
    assert_eq!(generation.stage, Stage::Writing);
}

#[test]
fn empty_output_is_written_too() {
    let (mut generation, _) = Generation::start(tool("git", "false"), "/d", false);
    generation.step(Reply::Probed { exists: false });
    let next = generation.step(Reply::Ran { stdout: Vec::new() });
    assert_eq!(next, Some(Request::Write { path: "/d/_git".to_string(), bytes: Vec::new() }));
}

#[test]
fn command_that_cannot_be_started_is_reported_failed() {
    for keep in [false, true] {
        let (mut generation, _) = Generation::start(tool("git", "git completion"), "/d", keep);
        generation.step(Reply::Probed { exists: false });
        let next = generation.step(Reply::RunFailed { reason: "Permission denied".to_string() });
        assert_eq!(
            next,
            Some(Request::Report {
                outcome: Outcome::Failed,
                message: "Failed: git completion: Permission denied".to_string()
            })
        );
        assert!(generation.finished());
        assert_eq!(generation.step(Reply::Written), None);
    }
}

#[test]
fn written_file_is_reported_completed() {
    let (mut generation, _) = Generation::start(tool("git", "git completion"), "/d", true);
    generation.step(Reply::Probed { exists: false });
    generation.step(Reply::Ran { stdout: b"#compdef git\n".to_vec() });
    let next = generation.step(Reply::Written);
    assert_eq!(
        next,
        Some(Request::Report {
            outcome: Outcome::Completed,
            message: "Completed: git completion".to_string()
        })
    );
    assert!(generation.finished());
}

#[test]
fn failed_write_aborts_the_process() {
    let (mut generation, _) = Generation::start(tool("git", "git completion"), "/d", false);
    generation.step(Reply::Probed { exists: true });
    generation.step(Reply::Ran { stdout: b"x".to_vec() });
    let next = generation.step(Reply::WriteFailed { reason: "No such file or directory".to_string() });
    assert_eq!(
        next,
        Some(Request::Abort { message: "Error: No such file or directory".to_string(), code: 256 })
    );
    assert!(generation.finished());
}

#[test]
fn reply_out_of_turn_changes_nothing() {
    let (mut generation, _) = Generation::start(tool("git", "git completion"), "/d", true);
    let before = generation.clone();
    assert_eq!(generation.step(Reply::Written), None);
    assert_eq!(generation.step(Reply::Ran { stdout: vec![1] }), None);
    assert_eq!(generation.step(Reply::RunFailed { reason: "r".to_string() }), None);
    assert_eq!(generation.step(Reply::WriteFailed { reason: "r".to_string() }), None);
    assert_eq!(generation, before);

    generation.step(Reply::Probed { exists: false });
    let running = generation.clone();
    assert_eq!(generation.step(Reply::Probed { exists: true }), None);
    assert_eq!(generation.step(Reply::Written), None);
    assert_eq!(generation, running);

    generation.step(Reply::Ran { stdout: vec![1] });
    let writing = generation.clone();
    assert_eq!(generation.step(Reply::Probed { exists: true }), None);
    assert_eq!(generation.step(Reply::Ran { stdout: vec![2] }), None);
    assert_eq!(generation.step(Reply::RunFailed { reason: "r".to_string() }), None);
    assert_eq!(generation, writing);
}

#[test]
fn finished_generation_takes_no_reply() {
    let (mut generation, _) = Generation::start(tool("git", "git completion"), "/d", true);
    generation.step(Reply::Probed { exists: true });
    let done = generation.clone();
    assert_eq!(generation.step(Reply::Probed { exists: true }), None);
    assert_eq!(generation.step(Reply::Ran { stdout: vec![] }), None);
    assert_eq!(generation.step(Reply::Written), None);
    assert_eq!(generation.step(Reply::WriteFailed { reason: String::new() }), None);
    assert_eq!(generation, done);
}
