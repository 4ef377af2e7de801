use std::collections::BTreeMap;

use custom_completion_zsh::config::{Config, ToolConfig};
use custom_completion_zsh::generate::{Generation, Reply, Request};
use custom_completion_zsh::paths::Environment;
use custom_completion_zsh::session::{Action, Command, Event, Session};

const DIR: &str = "/data/zsh/custom-completion-zsh";

/// A machine in memory: its files, and a record of what was run on it.
struct Machine {
    files: BTreeMap<String, Vec<u8>>,
    config: Option<Config>,
    read_only: bool,
    stuck: bool,
    broken: Vec<String>,
    ran: Vec<String>,
    printed: Vec<String>,
    turns: usize,
}

/// What a command prints: its own text, framed by bytes that are no text.
fn output_of(command: &str) -> Vec<u8> {
    let mut bytes = vec![0xFF, 0x00];
    bytes.extend_from_slice(command.as_bytes());
    bytes.push(b'\n');
    bytes
}

fn env() -> Environment {
    Environment {
        home: Some("/home/ann".to_string()),
        xdg_config_home: None,
        xdg_data_home: Some("/data".to_string()),
    }
}

fn tool(name: &str, command: &str) -> ToolConfig {
    ToolConfig { name: name.to_string(), command: command.to_string() }
}

fn three_tools() -> Config {
    Config { tool: vec![tool("a", "print a"), tool("b", "print b"), tool("c", "print c")] }
}

fn machine(config: Option<Config>, files: &[(&str, &[u8])]) -> Machine {
    Machine {
        files: files.iter().map(|(path, bytes)| (path.to_string(), bytes.to_vec())).collect(),
        config,
        read_only: false,
        stuck: false,
        broken: Vec::new(),
        ran: Vec::new(),
        printed: Vec::new(),
        turns: 0,
    }
}

/// One generation and what it has asked last; `None` once it has ended.
struct Task {
    generation: Generation,
    pending: Option<Request>,
}

/// Runs `command` on `machine`, giving the turn to the task that `order`
/// names next, and to the session where it names none. Returns the exit
/// status.
fn run(machine: &mut Machine, command: Command, order: &[usize]) -> i32 {
    let (mut session, mut step) = Session::start(command, &env());
    let mut tasks: Vec<Task> = Vec::new();
    let mut queue: Vec<String> = Vec::new();
    let mut capacity = 0;
    let mut turn = 0;
    machine.printed.extend(step.print.iter().cloned());
    loop {
        let pick = order[turn % order.len()];
        turn += 1;
        assert!(turn < 10_000, "the run does not end");
        if pick < tasks.len() {
            let task = &mut tasks[pick];
            if task.pending.is_some() {
                machine.turns += 1;
            }
            let reply = match task.pending.take() {
                None => continue,
                Some(Request::Probe { path }) => {
                    Reply::Probed { exists: machine.files.contains_key(&path) }
                }
                Some(Request::Run { program, args }) => {
                    assert_eq!(program, "sh");
                    assert_eq!(args.len(), 2);
                    assert_eq!(args[0], "-c");
                    if machine.broken.contains(&args[1]) {
                        Reply::RunFailed { reason: "cannot be started".to_string() }
                    } else {
                        machine.ran.push(args[1].clone());
                        Reply::Ran { stdout: output_of(&args[1]) }
                    }
                }
                Some(Request::Write { path, bytes }) => {
                    if machine.read_only {
                        Reply::WriteFailed { reason: "Read-only file system".to_string() }
                    } else {
                        machine.files.insert(path, bytes);
                        Reply::Written
                    }
                }
                Some(Request::Report { message, .. }) => {
                    assert!(queue.len() < capacity, "the queue is full");
                    queue.push(message);
                    continue;
                }
                Some(Request::Abort { message, code }) => {
                    machine.printed.push(message);
                    return code;
                }
            };
            task.pending = Some(task.generation.step(reply).expect("a reply in turn"));
            continue;
        }
        let event = match step.action {
            Action::RemoveDir { ref path } => {
                if machine.stuck {
                    Event::RemoveFailed { reason: "Permission denied".to_string() }
                } else {
                    let prefix = format!("{}/", path);
                    machine.files.retain(|file, _| !file.starts_with(&prefix));
                    Event::Removed
                }
            }
            Action::CreateDir { .. } => Event::Created,
            Action::Locate { .. } => Event::Located { found: machine.config.is_some() },
            Action::Load { .. } => Event::Loaded { config: machine.config.clone().unwrap() },
            Action::Launch { ref tools, ref dir, keep, capacity: room } => {
                capacity = room;
                for tool in tools {
                    let (generation, first) = Generation::start(tool.clone(), dir, keep);
                    tasks.push(Task { generation, pending: Some(first) });
                }
                Event::Launched
            }
            Action::Receive => {
                if !queue.is_empty() {
                    Event::Message { text: queue.remove(0) }
                } else if tasks.iter().all(|task| task.pending.is_none()) {
                    Event::Closed
                } else {
                    continue;
                }
            }
            Action::Exit { code } => {
                machine.turns += 1;
                return code;
            }
        };
        machine.turns += 1;
        step = session.step(event).expect("an event in turn");
        machine.printed.extend(step.print.iter().cloned());
    }
}

const BUILD: Command = Command::Build { keep: false, quiet: false };
const KEEP: Command = Command::Build { keep: true, quiet: false };

/// Orders of turns for three tasks; 9 names the session.
fn orders() -> Vec<Vec<usize>> {
    vec![
        vec![9, 0, 1, 2],
        vec![9, 2, 1, 0],
        vec![9, 0, 0, 0, 0, 1, 1, 1, 1, 2, 2, 2, 2],
        vec![2, 2, 9, 1, 0, 9, 0, 1, 9],
        vec![9, 1, 9, 1, 9, 1, 9, 1, 9, 9, 0, 2, 9, 9],
    ]
}

fn sorted(mut lines: Vec<String>) -> Vec<String> {
    lines.sort();
    lines
}

#[test]
fn build_writes_one_file_per_tool_in_any_order() {
    for order in orders() {
        let mut m = machine(Some(three_tools()), &[("/etc/passwd", b"root")]);
        assert_eq!(run(&mut m, BUILD, &order), 0);
        let files: Vec<(&str, Vec<u8>)> =
            m.files.iter().map(|(path, bytes)| (path.as_str(), bytes.clone())).collect();
        assert_eq!(
            files,
            vec![
                ("/data/zsh/custom-completion-zsh/_a", output_of("print a")),
                ("/data/zsh/custom-completion-zsh/_b", output_of("print b")),
                ("/data/zsh/custom-completion-zsh/_c", output_of("print c")),
                ("/etc/passwd", b"root".to_vec()),
            ]
        );
        assert_eq!(m.printed.len(), 4);
        assert_eq!(m.printed[3], format!("Add {} to your fpath", DIR));
        assert_eq!(
            sorted(m.printed[..3].to_vec()),
            vec!["Completed: print a", "Completed: print b", "Completed: print c"]
        );
        assert_eq!(sorted(m.ran.clone()), vec!["print a", "print b", "print c"]);
    }
}

#[test]
fn status_lines_are_printed_in_the_order_of_arrival() {
    let mut m = machine(Some(three_tools()), &[]);
    assert_eq!(run(&mut m, BUILD, &[9, 2, 0, 1]), 0);
    assert_eq!(
        m.printed,
        vec![
            "Completed: print c".to_string(),
            "Completed: print a".to_string(),
            "Completed: print b".to_string(),
            format!("Add {} to your fpath", DIR),
        ]
    );
}

#[test]
fn keeping_build_generates_only_what_is_missing() {
    for order in orders() {
        let mut m =
            machine(Some(three_tools()), &[("/data/zsh/custom-completion-zsh/_b", b"old b")]);
        assert_eq!(run(&mut m, KEEP, &order), 0);
        assert_eq!(m.files["/data/zsh/custom-completion-zsh/_a"], output_of("print a"));
        assert_eq!(m.files["/data/zsh/custom-completion-zsh/_b"], b"old b".to_vec());
        assert_eq!(m.files["/data/zsh/custom-completion-zsh/_c"], output_of("print c"));
        assert_eq!(m.files.len(), 3);
        assert_eq!(
            sorted(m.printed[..3].to_vec()),
            vec!["Completed: print a", "Completed: print c", "Kept: print b"]
        );
        assert_eq!(sorted(m.ran.clone()), vec!["print a", "print c"]);
    }
}

#[test]
fn second_keeping_build_runs_nothing() {
    for order in orders() {
        let mut m = machine(Some(three_tools()), &[]);
        assert_eq!(run(&mut m, KEEP, &order), 0);
        let built = m.files.clone();
        m.ran.clear();
        m.printed.clear();
        assert_eq!(run(&mut m, KEEP, &order), 0);
        assert_eq!(m.ran, Vec::<String>::new());
        assert_eq!(m.files, built);
        assert_eq!(
            sorted(m.printed[..3].to_vec()),
            vec!["Kept: print a", "Kept: print b", "Kept: print c"]
        );
    }
}

#[test]
fn keeping_build_after_plain_build_runs_nothing() {
    let mut m = machine(Some(three_tools()), &[]);
    assert_eq!(run(&mut m, BUILD, &[9, 0, 1, 2]), 0);
    let built = m.files.clone();
    m.ran.clear();
    assert_eq!(run(&mut m, Command::Build { keep: true, quiet: true }, &[9, 1, 2, 0]), 0);
    assert_eq!(m.ran, Vec::<String>::new());
    assert_eq!(m.files, built);
}

#[test]
fn plain_build_removes_stale_files() {
    for order in orders() {
        let mut m = machine(
            Some(three_tools()),
            &[
                ("/data/zsh/custom-completion-zsh/_gone", b"stale"),
                ("/data/zsh/custom-completion-zsh/nested/deep", b"stale"),
                ("/data/zsh/custom-completion-zsh/_b", b"old b"),
                ("/data/zsh/custom-completion-zsh.bak", b"beside"),
            ],
        );
        assert_eq!(run(&mut m, BUILD, &order), 0);
        let paths: Vec<&str> = m.files.keys().map(|path| path.as_str()).collect();
        assert_eq!(
            paths,
            vec![
                "/data/zsh/custom-completion-zsh.bak",
                "/data/zsh/custom-completion-zsh/_a",
                "/data/zsh/custom-completion-zsh/_b",
                "/data/zsh/custom-completion-zsh/_c",
            ]
        );
        assert_eq!(m.files["/data/zsh/custom-completion-zsh/_b"], output_of("print b"));
    }
}

#[test]
fn keeping_build_leaves_stale_files() {
    let mut m =
        machine(Some(three_tools()), &[("/data/zsh/custom-completion-zsh/_gone", b"stale")]);
    assert_eq!(run(&mut m, KEEP, &[9, 0, 1, 2]), 0);
    assert_eq!(m.files["/data/zsh/custom-completion-zsh/_gone"], b"stale".to_vec());
    assert_eq!(m.files.len(), 4);
}

#[test]
fn quiet_build_does_the_same_and_prints_nothing() {
    for keep in [false, true] {
        for order in orders() {
            let before: &[(&str, &[u8])] = &[
                ("/data/zsh/custom-completion-zsh/_b", b"old b"),
                ("/data/zsh/custom-completion-zsh/_gone", b"stale"),
            ];
            let mut loud = machine(Some(three_tools()), before);
            let mut quiet = machine(Some(three_tools()), before);
            assert_eq!(run(&mut loud, Command::Build { keep, quiet: false }, &order), 0);
            assert_eq!(run(&mut quiet, Command::Build { keep, quiet: true }, &order), 0);
            assert_eq!(quiet.files, loud.files);
            assert_eq!(quiet.ran, loud.ran);
            assert_eq!(quiet.printed, Vec::<String>::new());
            assert_eq!(loud.printed.len(), 4);
        }
    }
}

#[test]
fn build_with_no_tool_ends() {
    for quiet in [false, true] {
        let mut m = machine(
            Some(Config { tool: Vec::new() }),
            &[("/data/zsh/custom-completion-zsh/_gone", b"stale")],
        );
        assert_eq!(run(&mut m, Command::Build { keep: false, quiet }, &[9]), 0);
        assert_eq!(m.files.len(), 0);
        assert_eq!(m.ran.len(), 0);
        if quiet {
            assert_eq!(m.printed.len(), 0);
        } else {
            assert_eq!(m.printed, vec![format!("Add {} to your fpath", DIR)]);
        }
    }
}

#[test]
fn build_without_configuration_resets_and_fails() {
    let mut m = machine(None, &[("/data/zsh/custom-completion-zsh/_gone", b"stale")]);
    assert_eq!(run(&mut m, BUILD, &[9]), 1);
    assert_eq!(m.printed, vec!["No settings found"]);
    assert_eq!(m.files.len(), 0);
}

#[test]
fn keeping_build_without_configuration_touches_nothing() {
    let mut m = machine(None, &[("/data/zsh/custom-completion-zsh/_gone", b"stale")]);
    assert_eq!(run(&mut m, KEEP, &[9]), 1);
    assert_eq!(m.printed, vec!["No settings found"]);
    assert_eq!(m.files.len(), 1);
}

#[test]
fn failed_write_ends_the_build() {
    let mut m = machine(Some(three_tools()), &[]);
    m.read_only = true;
    assert_eq!(run(&mut m, BUILD, &[9, 0, 1, 2]), 256);
    assert_eq!(m.printed, vec!["Error: Read-only file system"]);
    assert_eq!(m.files.len(), 0);
}

#[test]
fn getconfig_shows_the_configuration() {
    let mut m = machine(Some(three_tools()), &[("/data/zsh/custom-completion-zsh/_a", b"a")]);
    assert_eq!(run(&mut m, Command::Getconfig, &[9]), 0);
    assert_eq!(
        m.printed,
        vec![
            "/home/ann/.config/custom-completion-zsh/config.toml",
            "name: a exec: print a",
            "name: b exec: print b",
            "name: c exec: print c",
        ]
    );
    assert_eq!(m.files.len(), 1);
    assert_eq!(m.ran.len(), 0);
}

#[test]
fn getconfig_without_configuration_fails() {
    let mut m = machine(None, &[]);
    assert_eq!(run(&mut m, Command::Getconfig, &[9]), 1);
    assert_eq!(m.printed, vec!["No settings found"]);
}

#[test]
fn tools_that_share_a_name_share_a_file() {
    let config = Config { tool: vec![tool("a", "print one"), tool("a", "print two")] };
    let mut m = machine(Some(config), &[]);
    assert_eq!(run(&mut m, BUILD, &[9, 0, 1]), 0);
    assert_eq!(m.files.len(), 1);
    assert_eq!(m.printed.len(), 3);
    assert_eq!(sorted(m.ran.clone()), vec!["print one", "print two"]);
}

#[test]
fn no_run_takes_more_turns_than_seven_and_five_per_tool() {
    for order in orders() {
        let mut built = machine(Some(three_tools()), &[]);
        assert_eq!(run(&mut built, BUILD, &order), 0);
        assert_eq!(built.turns, 7 + 5 * 3);

        let mut kept = machine(Some(three_tools()), &[]);
        kept.files = built.files.clone();
        assert_eq!(run(&mut kept, KEEP, &order), 0);
        assert_eq!(kept.turns, 5 + 3 * 3);

        let mut empty = machine(Some(Config { tool: Vec::new() }), &[]);
        assert_eq!(run(&mut empty, BUILD, &order), 0);
        assert_eq!(empty.turns, 7);

        let mut missing = machine(None, &[]);
        assert_eq!(run(&mut missing, BUILD, &order), 1);
        assert_eq!(missing.turns, 4);
    }
}

#[test]
fn directory_that_cannot_be_removed_is_reported_and_keeps_its_files() {
    for quiet in [false, true] {
        for order in orders() {
            let mut m = machine(
                Some(three_tools()),
                &[
                    ("/data/zsh/custom-completion-zsh/_gone", b"stale"),
                    ("/data/zsh/custom-completion-zsh/_b", b"old b"),
                ],
            );
            m.stuck = true;
            assert_eq!(run(&mut m, Command::Build { keep: false, quiet }, &order), 0);
            assert_eq!(m.printed[0], "Error: Permission denied");
            assert_eq!(m.printed.len(), if quiet { 1 } else { 5 });
            assert_eq!(m.files["/data/zsh/custom-completion-zsh/_gone"], b"stale".to_vec());
            assert_eq!(m.files["/data/zsh/custom-completion-zsh/_a"], output_of("print a"));
            assert_eq!(m.files["/data/zsh/custom-completion-zsh/_b"], output_of("print b"));
            assert_eq!(m.files["/data/zsh/custom-completion-zsh/_c"], output_of("print c"));
            assert_eq!(m.files.len(), 4);
        }
    }
}

#[test]
fn directory_that_can_neither_be_removed_nor_created_ends_the_build() {
    let (mut session, _) = Session::start(BUILD, &env());
    let first = session.step(Event::RemoveFailed { reason: "Permission denied".to_string() });
    assert_eq!(first.unwrap().print, vec!["Error: Permission denied"]);
    let last = session.step(Event::CreateFailed { reason: "Read-only file system".to_string() });
    let last = last.unwrap();
    assert_eq!(last.print, vec!["Error: Read-only file system"]);
    assert_eq!(last.action, Action::Exit { code: 256 });
}

#[test]
fn tool_whose_command_cannot_be_started_still_sends_its_line() {
    for order in orders() {
        let mut m =
            machine(Some(three_tools()), &[("/data/zsh/custom-completion-zsh/_b", b"old b")]);
        m.broken = vec!["print b".to_string()];
        assert_eq!(run(&mut m, BUILD, &order), 0);
        assert_eq!(m.printed.len(), 4);
        assert_eq!(
            sorted(m.printed[..3].to_vec()),
            vec!["Completed: print a", "Completed: print c", "Failed: print b: cannot be started"]
        );
        assert_eq!(sorted(m.ran.clone()), vec!["print a", "print c"]);
        let paths: Vec<&str> = m.files.keys().map(|path| path.as_str()).collect();
        assert_eq!(
            paths,
            vec!["/data/zsh/custom-completion-zsh/_a", "/data/zsh/custom-completion-zsh/_c"]
        );
    }
}

#[test]
fn failed_command_leaves_an_existing_file_alone() {
    for order in orders() {
        let mut m = machine(Some(three_tools()), &[]);
        m.stuck = true;
        m.files.insert("/data/zsh/custom-completion-zsh/_b".to_string(), b"old b".to_vec());
        m.broken = vec!["print b".to_string()];
        assert_eq!(run(&mut m, Command::Build { keep: false, quiet: true }, &order), 0);
        assert_eq!(m.files["/data/zsh/custom-completion-zsh/_b"], b"old b".to_vec());
        assert_eq!(m.printed, vec!["Error: Permission denied"]);
    }
}

#[test]
fn kept_file_hides_a_command_that_cannot_be_started() {
    let mut m = machine(Some(three_tools()), &[("/data/zsh/custom-completion-zsh/_b", b"old b")]);
    m.broken = vec!["print b".to_string()];
    assert_eq!(run(&mut m, KEEP, &[9, 0, 1, 2]), 0);
    assert_eq!(sorted(m.printed[..3].to_vec()), vec![
        "Completed: print a",
        "Completed: print c",
        "Kept: print b"
    ]);
}
