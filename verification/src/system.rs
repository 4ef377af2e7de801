//! A model of a whole run, for stating what the machines of this crate
//! achieve together.
//!
//! The model puts a [`SessionView`] and the [`GenerationView`]s it starts
//! beside the things they act on: the files of the machine, the queue of
//! status lines, the lines printed and the exit status. A [`Host`] says how
//! the machine answers; a sequence of [`Turn`]s says in which order the
//! session and the generations get to move. Nothing here is executable: the
//! program's driver is the real counterpart of [`System::advance`].

use vstd::prelude::*;
use crate::config::ToolView;
use crate::generate::{shell_args, shell_program, GenerationView, ReplyView, RequestView};
use crate::paths::{compfile_path_spec, join_spec, EnvironmentView};
use crate::report::{error_line_spec, failure_message_spec, status_message_spec, Outcome};
use crate::session::{ActionView, Command, EventView, SessionView};

verus! {

/// The files of the machine: the contents of each, by its path.
pub type Files = Map<Seq<char>, Seq<u8>>;

/// Whether `path` lies in the directory `dir`, at any depth.
pub open spec fn inside(dir: Seq<char>, path: Seq<char>) -> bool {
    let prefix = join_spec(dir, Seq::empty());
    prefix.len() < path.len() && path.subrange(0, prefix.len() as int) == prefix
}

/// The files that are left when the directory `dir` is removed with all it
/// holds.
pub open spec fn without(files: Files, dir: Seq<char>) -> Files {
    Map::new(
        |path: Seq<char>| files.dom().contains(path) && !inside(dir, path),
        |path: Seq<char>| files[path],
    )
}

/// How the machine answers during one run.
pub struct Host {
    /// What a program prints to its standard output when run with the given
    /// arguments.
    pub output: spec_fn(Seq<char>, Seq<Seq<char>>) -> Seq<u8>,
    /// Why a program cannot be started with the given arguments, if it
    /// cannot.
    pub run_error: spec_fn(Seq<char>, Seq<Seq<char>>) -> Option<Seq<char>>,
    /// Why the completion directory cannot be removed, if it is there and
    /// cannot.
    pub remove_error: Option<Seq<char>>,
    /// Whether the configuration file exists; `None` where that cannot be
    /// found out.
    pub located: Option<bool>,
    /// The tools that the configuration file lists; `None` where it cannot
    /// be read or is malformed.
    pub config: Option<Seq<ToolView>>,
    /// Why the completion directory cannot be created, if it cannot.
    pub create_error: Option<Seq<char>>,
    /// Why the file at a path cannot be written, if it cannot.
    pub write_error: spec_fn(Seq<char>) -> Option<Seq<char>>,
}

impl Host {
    /// What the shell prints when it runs `command`.
    pub open spec fn prints(self, command: Seq<char>) -> Seq<u8> {
        (self.output)(shell_program(), shell_args(command))
    }

    /// Why the shell cannot be started to run `command`, if it cannot.
    pub open spec fn fails(self, command: Seq<char>) -> Option<Seq<char>> {
        (self.run_error)(shell_program(), shell_args(command))
    }

    /// The answer to a probe, a run or a write, the files afterwards, and
    /// how many programs were run. The requests that end a generation have
    /// no answer.
    pub open spec fn answer(self, request: RequestView, files: Files) -> Option<
        (ReplyView, Files, nat),
    > {
        match request {
            RequestView::Probe { path } => Some(
                (ReplyView::Probed { exists: files.dom().contains(path) }, files, 0),
            ),
            RequestView::Run { program, args } => match (self.run_error)(program, args) {
                Some(reason) => Some((ReplyView::RunFailed { reason }, files, 0)),
                None => Some((ReplyView::Ran { stdout: (self.output)(program, args) }, files, 1)),
            },
            RequestView::Write { path, bytes } => match (self.write_error)(path) {
                Some(reason) => Some((ReplyView::WriteFailed { reason }, files, 0)),
                None => Some((ReplyView::Written, files.insert(path, bytes), 0)),
            },
            RequestView::Report { .. } => None,
            RequestView::Abort { .. } => None,
        }
    }
}

/// A status line on its way from a generation to the session.
pub struct StatusLine {
    /// Which generation sent it: its place among the configured tools.
    pub task: int,
    /// How that generation ended.
    pub outcome: Outcome,
    /// The line itself.
    pub message: Seq<char>,
}

/// One generation and its driver.
pub struct Task {
    /// The generation.
    pub machine: GenerationView,
    /// What the generation asked last and the driver has yet to do; `None`
    /// once the task has ended.
    pub pending: Option<RequestView>,
    /// How many programs the driver has run for the generation.
    pub runs: nat,
    /// The place of the task's status line among all that were sent, once
    /// it has sent one.
    pub slot: Option<int>,
}

impl Task {
    /// The task of a generation that has just been started.
    pub open spec fn fresh(tool: ToolView, dir: Seq<char>, keep: bool) -> Task {
        let (machine, first) = GenerationView::start(tool, dir, keep);
        Task { machine, pending: Some(first), runs: 0, slot: None }
    }
}

/// Who moves next.
pub enum Turn {
    /// The session: its driver does what the session asked last and hands
    /// the answer back.
    Session,
    /// The generation at this place among the configured tools, likewise.
    Task(int),
}

/// The state of a run.
pub struct System {
    /// The session.
    pub session: SessionView,
    /// What the session asked last and its driver has yet to do.
    pub pending: ActionView,
    /// What the session asked and its driver has done, oldest first.
    pub done: Seq<ActionView>,
    /// The generations that were started, in the order of their tools.
    pub tasks: Seq<Task>,
    /// How many status lines the queue holds at most.
    pub capacity: nat,
    /// The status lines that were sent and not yet received, oldest first.
    pub queue: Seq<StatusLine>,
    /// The status lines that the session has received, oldest first.
    pub received: Seq<StatusLine>,
    /// The files of the machine.
    pub files: Files,
    /// The lines printed so far.
    pub printed: Seq<Seq<char>>,
    /// The status that the process exited with, once it has.
    pub exit: Option<int>,
}

impl System {
    /// Every status line sent so far, oldest first.
    pub open spec fn sent(self) -> Seq<StatusLine> {
        self.received + self.queue
    }

    /// Whether every task has ended, so that no sender of the queue is left.
    pub open spec fn all_ended(self) -> bool {
        forall|i: int| 0 <= i < self.tasks.len() ==> (#[trigger] self.tasks[i]).pending is None
    }

    /// Whether `turn` can be taken.
    ///
    /// Nothing moves once the process has exited. The session waits on an
    /// empty queue while a sender is left. A generation that is about to
    /// send its status line waits while the queue is full.
    pub open spec fn ready(self, turn: Turn) -> bool {
        self.exit is None && match turn {
            Turn::Session => self.pending is Receive ==> self.queue.len() > 0 || self.all_ended(),
            Turn::Task(i) => 0 <= i < self.tasks.len() && match self.tasks[i].pending {
                Some(RequestView::Report { .. }) => self.queue.len() < self.capacity,
                Some(_) => true,
                None => false,
            },
        }
    }

    /// The answer to the session's pending action and the system once the
    /// driver has done what it asks. Exiting has no answer.
    pub open spec fn perform(self, host: Host) -> Option<(EventView, System)> {
        match self.pending {
            ActionView::RemoveDir { path } => match host.remove_error {
                Some(reason) => Some((EventView::RemoveFailed { reason }, self)),
                None => Some(
                    (EventView::Removed, System { files: without(self.files, path), ..self }),
                ),
            },
            ActionView::CreateDir { path } => Some(
                (
                    match host.create_error {
                        Some(reason) => EventView::CreateFailed { reason },
                        None => EventView::Created,
                    },
                    self,
                ),
            ),
            ActionView::Locate { path } => Some(
                (
                    match host.located {
                        Some(found) => EventView::Located { found },
                        None => EventView::LocateFailed,
                    },
                    self,
                ),
            ),
            ActionView::Load { path } => Some(
                (
                    match host.config {
                        Some(config) => EventView::Loaded { config },
                        None => EventView::Malformed,
                    },
                    self,
                ),
            ),
            ActionView::Launch { tools, dir, keep, capacity } => Some(
                (
                    EventView::Launched,
                    System {
                        tasks: Seq::new(tools.len(), |i: int| Task::fresh(tools[i], dir, keep)),
                        capacity,
                        ..self
                    },
                ),
            ),
            ActionView::Receive => if self.queue.len() > 0 {
                Some(
                    (
                        EventView::Message { text: self.queue[0].message },
                        System {
                            queue: self.queue.drop_first(),
                            received: self.received.push(self.queue[0]),
                            ..self
                        },
                    ),
                )
            } else {
                Some((EventView::Closed, self))
            },
            ActionView::Exit { code } => None,
        }
    }

    /// The system after a turn of the session.
    pub open spec fn session_turn(self, host: Host) -> System {
        match self.pending {
            ActionView::Exit { code } => System {
                exit: Some(code),
                done: self.done.push(self.pending),
                ..self
            },
            _ => {
                let (event, after) = self.perform(host)->0;
                match self.session.step(event) {
                    Some((session, step)) => System {
                        session,
                        pending: step.action,
                        done: self.done.push(self.pending),
                        printed: after.printed + step.print,
                        ..after
                    },
                    None => self,
                }
            },
        }
    }

    /// The system after a turn of the task at place `i`.
    pub open spec fn task_turn(self, host: Host, i: int) -> System {
        let task = self.tasks[i];
        match task.pending {
            None => self,
            Some(RequestView::Report { outcome, message }) => System {
                queue: self.queue.push(StatusLine { task: i, outcome, message }),
                tasks: self.tasks.update(
                    i,
                    Task { pending: None, slot: Some(self.sent().len() as int), ..task },
                ),
                ..self
            },
            Some(RequestView::Abort { message, code }) => System {
                printed: self.printed.push(message),
                exit: Some(code),
                tasks: self.tasks.update(i, Task { pending: None, ..task }),
                ..self
            },
            Some(request) => match host.answer(request, self.files) {
                Some((reply, files, ran)) => match task.machine.step(reply) {
                    Some((machine, next)) => System {
                        files,
                        tasks: self.tasks.update(
                            i,
                            Task { machine, pending: Some(next), runs: task.runs + ran, ..task },
                        ),
                        ..self
                    },
                    None => self,
                },
                None => self,
            },
        }
    }

    /// The system after `turn`; the system itself where `turn` cannot be
    /// taken.
    pub open spec fn advance(self, host: Host, turn: Turn) -> System {
        if !self.ready(turn) {
            self
        } else {
            match turn {
                Turn::Session => self.session_turn(host),
                Turn::Task(i) => self.task_turn(host, i),
            }
        }
    }

    /// The system after `turns`, one after the other.
    pub open spec fn run(self, host: Host, turns: Seq<Turn>) -> System
        decreases turns.len(),
    {
        if turns.len() == 0 {
            self
        } else {
            self.run(host, turns.drop_last()).advance(host, turns.last())
        }
    }
}

/// All that a run depends on, but for the order of its turns.
pub struct Scenario {
    /// What the run is for.
    pub command: Command,
    /// The environment it runs in.
    pub env: EnvironmentView,
    /// The files of the machine when it starts.
    pub files: Files,
    /// How the machine answers.
    pub host: Host,
}

impl Scenario {
    /// The system when the run starts.
    pub open spec fn boot(self) -> System {
        let (session, first) = SessionView::start(self.command, self.env);
        System {
            session,
            pending: first.action,
            done: Seq::empty(),
            tasks: Seq::empty(),
            capacity: 0,
            queue: Seq::empty(),
            received: Seq::empty(),
            files: self.files,
            printed: first.print,
            exit: None,
        }
    }

    /// The system after `turns`.
    pub open spec fn after(self, turns: Seq<Turn>) -> System {
        self.boot().run(self.host, turns)
    }

    /// The directory that the completion files are written to.
    pub open spec fn dir(self) -> Seq<char> {
        self.env.compfile_dir()
    }

    /// Whether the run is a build that keeps the files that are there.
    pub open spec fn keep(self) -> bool {
        self.command matches Command::Build { keep, .. } && keep
    }

    /// Whether the run is a build that prints no status.
    pub open spec fn quiet(self) -> bool {
        self.command matches Command::Build { quiet, .. } && quiet
    }

    /// Whether the run is a build that starts by removing the completion
    /// directory.
    pub open spec fn resets(self) -> bool {
        self.command is Build && !self.keep()
    }

    /// Whether the run is a build that starts from an empty completion
    /// directory: it removes the directory, and the directory can be
    /// removed.
    pub open spec fn clears(self) -> bool {
        self.resets() && self.host.remove_error is None
    }

    /// What a run prints about its completion directory: why it could not
    /// be removed, where it was to be and could not.
    pub open spec fn complaint(self) -> Seq<Seq<char>> {
        if self.resets() && self.host.remove_error is Some {
            seq![error_line_spec(self.host.remove_error->0)]
        } else {
            Seq::empty()
        }
    }

    /// The files of the machine when the generations are started.
    pub open spec fn launch_files(self) -> Files {
        if self.clears() {
            without(self.files, self.dir())
        } else {
            self.files
        }
    }

    /// The configured tools; none where there is no usable configuration.
    pub open spec fn tools(self) -> Seq<ToolView> {
        match self.host.config {
            Some(tools) => tools,
            None => Seq::empty(),
        }
    }

    /// The path of the completion file of the tool at place `i`.
    pub open spec fn path(self, i: int) -> Seq<char> {
        compfile_path_spec(self.dir(), self.tools()[i].name)
    }

    /// Whether the completion file of the tool at place `i` is left as it
    /// is: the run keeps files, and the file is there when the generations
    /// are started.
    pub open spec fn kept(self, i: int) -> bool {
        self.keep() && self.launch_files().dom().contains(self.path(i))
    }

    /// Why the command of the tool at place `i` cannot be started, if it
    /// cannot.
    pub open spec fn failure(self, i: int) -> Option<Seq<char>> {
        self.host.fails(self.tools()[i].command)
    }

    /// How the generation of the tool at place `i` ends.
    pub open spec fn outcome(self, i: int) -> Outcome {
        if self.kept(i) {
            Outcome::Kept
        } else if self.failure(i) is Some {
            Outcome::Failed
        } else {
            Outcome::Completed
        }
    }

    /// The status line of the tool at place `i`, were its generation to end
    /// with `outcome`.
    pub open spec fn report(self, i: int, outcome: Outcome) -> Seq<char> {
        match outcome {
            Outcome::Failed => failure_message_spec(
                self.tools()[i].command,
                self.failure(i)->0,
            ),
            _ => status_message_spec(outcome, self.tools()[i].command),
        }
    }

    /// What the completion file of the tool at place `i` holds in the end,
    /// unless its command cannot be started: what it held, if it is kept,
    /// and else what the tool's command prints.
    pub open spec fn contents(self, i: int) -> Seq<u8> {
        if self.kept(i) {
            self.launch_files()[self.path(i)]
        } else {
            self.host.prints(self.tools()[i].command)
        }
    }

    /// The status line of the tool at place `i`.
    pub open spec fn message(self, i: int) -> Seq<char> {
        self.report(i, self.outcome(i))
    }
}

} // verus!
