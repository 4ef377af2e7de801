//! The generation of one completion file, as a machine that never touches
//! the outside world itself.
//!
//! A [`Generation`] asks its driver for one thing at a time with a
//! [`Request`] and is told how it went with a [`Reply`]: whether the file is
//! there, what the command printed or why it could not be started, whether
//! the write went through. The driver probes, runs and writes; every
//! decision is taken here.

use vstd::prelude::*;
use vstd::string::*;
use crate::config::{ToolConfig, ToolView};
use crate::paths::{compfile_path, compfile_path_spec};
use crate::report::{
    error_line, error_line_spec, failure_message, failure_message_spec, status_message,
    status_message_spec, texts, Outcome, EXIT_FATAL,
};

verus! {

/// The program that runs a tool's command line.
pub open spec fn shell_program() -> Seq<char> {
    "sh"@
}

/// The arguments that make the shell run `command` as one command line.
pub open spec fn shell_args(command: Seq<char>) -> Seq<Seq<char>> {
    seq!["-c"@, command]
}

/// What a generation waits for.
#[derive(Clone, Copy, Debug, PartialEq, Eq, Structural)]
pub enum Stage {
    /// Whether the completion file exists.
    Probing,
    /// The output of the tool's command.
    Running,
    /// The result of writing the completion file.
    Writing,
    /// Nothing: the generation has reported or aborted.
    Finished,
}

/// What a generation asks of its driver.
#[derive(Clone, Debug, PartialEq, Eq)]
pub enum Request {
    /// Find out whether a file exists at `path`; answer with
    /// [`Reply::Probed`].
    Probe { path: String },
    /// Run `program` with `args`, discarding its standard error and its exit
    /// status; answer with [`Reply::Ran`], or with [`Reply::RunFailed`] where
    /// the program could not be started.
    Run { program: String, args: Vec<String> },
    /// Replace the contents of the file at `path` with `bytes`; answer with
    /// [`Reply::Written`] or [`Reply::WriteFailed`].
    Write { path: String, bytes: Vec<u8> },
    /// Hand `message` to whoever collects the status lines. Nothing follows.
    Report { outcome: Outcome, message: String },
    /// Print `message` and end the whole process with `code`. Nothing
    /// follows.
    Abort { message: String, code: i32 },
}

/// A [`Request`] as plain values.
pub enum RequestView {
    Probe { path: Seq<char> },
    Run { program: Seq<char>, args: Seq<Seq<char>> },
    Write { path: Seq<char>, bytes: Seq<u8> },
    Report { outcome: Outcome, message: Seq<char> },
    Abort { message: Seq<char>, code: int },
}

impl View for Request {
    type V = RequestView;

    open spec fn view(&self) -> RequestView {
        match self {
            Request::Probe { path } => RequestView::Probe { path: path@ },
            Request::Run { program, args } => RequestView::Run {
                program: program@,
                args: texts(args@),
            },
            Request::Write { path, bytes } => RequestView::Write { path: path@, bytes: bytes@ },
            Request::Report { outcome, message } => RequestView::Report {
                outcome: *outcome,
                message: message@,
            },
            Request::Abort { message, code } => RequestView::Abort {
                message: message@,
                code: *code as int,
            },
        }
    }
}

/// What the driver found when it did what a [`Request`] asked.
#[derive(Clone, Debug, PartialEq, Eq)]
pub enum Reply {
    /// A file exists at the probed path, or none does.
    Probed { exists: bool },
    /// The command ran and printed `stdout` to its standard output.
    Ran { stdout: Vec<u8> },
    /// The command could not be started, for `reason`.
    RunFailed { reason: String },
    /// The file now holds the bytes.
    Written,
    /// The file could not be written, for `reason`.
    WriteFailed { reason: String },
}

/// A [`Reply`] as plain values.
pub enum ReplyView {
    Probed { exists: bool },
    Ran { stdout: Seq<u8> },
    RunFailed { reason: Seq<char> },
    Written,
    WriteFailed { reason: Seq<char> },
}

impl View for Reply {
    type V = ReplyView;

    open spec fn view(&self) -> ReplyView {
        match self {
            Reply::Probed { exists } => ReplyView::Probed { exists: *exists },
            Reply::Ran { stdout } => ReplyView::Ran { stdout: stdout@ },
            Reply::RunFailed { reason } => ReplyView::RunFailed { reason: reason@ },
            Reply::Written => ReplyView::Written,
            Reply::WriteFailed { reason } => ReplyView::WriteFailed { reason: reason@ },
        }
    }
}

/// The generation of the completion file of one tool.
#[derive(Clone, Debug, PartialEq, Eq)]
pub struct Generation {
    /// The tool.
    pub tool: ToolConfig,
    /// The path of its completion file.
    pub path: String,
    /// Whether a file that is already there is left as it is.
    pub keep: bool,
    /// What the generation waits for.
    pub stage: Stage,
}

/// A [`Generation`] as plain values.
pub struct GenerationView {
    pub tool: ToolView,
    pub path: Seq<char>,
    pub keep: bool,
    pub stage: Stage,
}

impl View for Generation {
    type V = GenerationView;

    open spec fn view(&self) -> GenerationView {
        GenerationView { tool: self.tool@, path: self.path@, keep: self.keep, stage: self.stage }
    }
}

impl GenerationView {
    /// The generation of `tool`'s completion file in `dir`, and its first
    /// request: to probe for the file.
    pub open spec fn start(tool: ToolView, dir: Seq<char>, keep: bool) -> (
        GenerationView,
        RequestView,
    ) {
        let path = compfile_path_spec(dir, tool.name);
        (
            GenerationView { tool, path, keep, stage: Stage::Probing },
            RequestView::Probe { path },
        )
    }

    /// The generation at another stage.
    pub open spec fn at(self, stage: Stage) -> GenerationView {
        GenerationView { stage, ..self }
    }

    /// The request that ends the generation with `outcome`.
    pub open spec fn report(self, outcome: Outcome) -> RequestView {
        RequestView::Report {
            outcome,
            message: status_message_spec(outcome, self.tool.command),
        }
    }

    /// The generation after `reply` and what it asks next, or `None` where
    /// `reply` does not answer what the generation waits for.
    ///
    /// - A file that is there is kept if that was asked for, and the
    ///   generation reports [`Outcome::Kept`]; otherwise the command is run.
    /// - What the command printed is written to the file as it is. A
    ///   command that could not be started leaves the file alone, and the
    ///   generation reports [`Outcome::Failed`] with the reason.
    /// - After the write the generation reports [`Outcome::Completed`]; a
    ///   failed write aborts the process.
    pub open spec fn step(self, reply: ReplyView) -> Option<(GenerationView, RequestView)> {
        match (self.stage, reply) {
            (Stage::Probing, ReplyView::Probed { exists }) => if exists && self.keep {
                Some((self.at(Stage::Finished), self.report(Outcome::Kept)))
            } else {
                Some(
                    (
                        self.at(Stage::Running),
                        RequestView::Run {
                            program: shell_program(),
                            args: shell_args(self.tool.command),
                        },
                    ),
                )
            },
            (Stage::Running, ReplyView::Ran { stdout }) => Some(
                (self.at(Stage::Writing), RequestView::Write { path: self.path, bytes: stdout }),
            ),
            (Stage::Running, ReplyView::RunFailed { reason }) => Some(
                (
                    self.at(Stage::Finished),
                    RequestView::Report {
                        outcome: Outcome::Failed,
                        message: failure_message_spec(self.tool.command, reason),
                    },
                ),
            ),
            (Stage::Writing, ReplyView::Written) => Some(
                (self.at(Stage::Finished), self.report(Outcome::Completed)),
            ),
            (Stage::Writing, ReplyView::WriteFailed { reason }) => Some(
                (
                    self.at(Stage::Finished),
                    RequestView::Abort { message: error_line_spec(reason), code: EXIT_FATAL as int },
                ),
            ),
            _ => None,
        }
    }
}

impl Generation {
    /// Starts the generation of `tool`'s completion file in `dir`. With
    /// `keep`, a file that is already there is left as it is.
    pub fn start(tool: ToolConfig, dir: &str, keep: bool) -> (started: (Generation, Request))
        ensures
            (started.0@, started.1@) == GenerationView::start(tool@, dir@, keep),
    {
        let path = compfile_path(dir, tool.name.as_str());
        let probe = Request::Probe { path: path.clone() };
        (Generation { tool, path, keep, stage: Stage::Probing }, probe)
    }

    /// Whether the generation has reported or aborted.
    pub fn finished(&self) -> (done: bool)
        ensures
            done == (self@.stage == Stage::Finished),
    {
        match self.stage {
            Stage::Finished => true,
            _ => false,
        }
    }

    /// Takes the answer to the last request and gives the next one, or
    /// `None`, leaving the generation as it was, where `reply` does not
    /// answer what the generation waits for.
    pub fn step(&mut self, reply: Reply) -> (request: Option<Request>)
        ensures
            match old(self)@.step(reply@) {
                Some((next, asked)) => {
                    &&& final(self)@ == next
                    &&& request matches Some(r)
                    &&& r@ == asked
                },
                None => final(self)@ == old(self)@ && request is None,
            },
    {
        match (self.stage, reply) {
            (Stage::Probing, Reply::Probed { exists }) => {
                if exists && self.keep {
                    self.stage = Stage::Finished;
                    Some(self.report(Outcome::Kept))
                } else {
                    self.stage = Stage::Running;
                    let mut args: Vec<String> = Vec::new();
                    args.push(String::from_str("-c"));
                    args.push(self.tool.command.clone());
                    proof {
                        assert(texts(args@) =~= shell_args(self.tool.command@));
                    }
                    Some(Request::Run { program: String::from_str("sh"), args })
                }
            },
            (Stage::Running, Reply::Ran { stdout }) => {
                self.stage = Stage::Writing;
                Some(Request::Write { path: self.path.clone(), bytes: stdout })
            },
            (Stage::Running, Reply::RunFailed { reason }) => {
                self.stage = Stage::Finished;
                Some(
                    Request::Report {
                        outcome: Outcome::Failed,
                        message: failure_message(self.tool.command.as_str(), reason.as_str()),
                    },
                )
            },
            (Stage::Writing, Reply::Written) => {
                self.stage = Stage::Finished;
                Some(self.report(Outcome::Completed))
            },
            (Stage::Writing, Reply::WriteFailed { reason }) => {
                self.stage = Stage::Finished;
                Some(Request::Abort { message: error_line(reason.as_str()), code: EXIT_FATAL })
            },
            _ => None,
        }
    }

    /// The request that ends the generation with `outcome`.
    fn report(&self, outcome: Outcome) -> (request: Request)
        ensures
            request@ == self@.report(outcome),
    {
        Request::Report { outcome, message: status_message(outcome, self.tool.command.as_str()) }
    }
}

} // verus!
