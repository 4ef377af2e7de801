//! One run of the program, as a machine that never touches the outside
//! world itself.
//!
//! A [`Session`] carries out `getconfig` or `build`. It asks its driver for
//! one thing at a time with an [`Action`] and is told how it went with an
//! [`Event`]; with each action it hands over the lines to print first. The
//! driver removes and creates directories, reads the configuration, starts
//! the generations and receives their status lines; every decision is taken
//! here.

use vstd::prelude::*;
use vstd::string::*;
use crate::config::{tool_views, Config, ToolConfig, ToolView};
use crate::paths::{get_compfile_dir, get_config_path, Environment, EnvironmentView};
use crate::report::{
    error_line, error_line_spec, fpath_hint, fpath_hint_spec, no_settings, no_settings_spec, texts,
    tool_line, tool_line_spec, EXIT_FATAL, EXIT_NO_SETTINGS, EXIT_OK,
};

verus! {

/// What a run is for.
#[derive(Clone, Copy, Debug, PartialEq, Eq, Structural)]
pub enum Command {
    /// Show the path of the configuration file and the tools it lists.
    Getconfig,
    /// Generate the completion file of every configured tool. With `keep`,
    /// files that are already there are left as they are; with `quiet`,
    /// neither the status lines nor the closing hint are printed.
    Build { keep: bool, quiet: bool },
}

/// What a session waits for.
#[derive(Clone, Copy, Debug, PartialEq, Eq, Structural)]
pub enum Phase {
    /// The removal of the completion directory.
    Removing,
    /// The creation of the completion directory.
    Creating,
    /// Whether the configuration file exists.
    Locating,
    /// The contents of the configuration file.
    Loading,
    /// The start of the generations.
    Launching,
    /// The next status line, or the end of them.
    Collecting,
    /// Nothing: the session has told the process to exit.
    Finished,
}

/// What a session asks of its driver.
#[derive(Clone, Debug, PartialEq, Eq)]
pub enum Action {
    /// Remove the directory at `path` and all it holds; answer with
    /// [`Event::Removed`], or with [`Event::RemoveFailed`] where the
    /// directory is there and could not be removed.
    RemoveDir { path: String },
    /// Create the directory at `path` and its missing parents; answer with
    /// [`Event::Created`] or [`Event::CreateFailed`].
    CreateDir { path: String },
    /// Find out whether a file exists at `path`; answer with
    /// [`Event::Located`] or [`Event::LocateFailed`].
    Locate { path: String },
    /// Read the configuration file at `path`; answer with [`Event::Loaded`]
    /// or [`Event::Malformed`].
    Load { path: String },
    /// Open a queue for status lines that holds `capacity` of them, and
    /// start one concurrent generation per tool in `dir`, each with a handle
    /// for sending its line; answer with [`Event::Launched`].
    Launch { tools: Vec<ToolConfig>, dir: String, keep: bool, capacity: usize },
    /// Wait for the next status line; answer with [`Event::Message`], or
    /// with [`Event::Closed`] once every generation has ended and the queue
    /// is empty.
    Receive,
    /// End the process with `code`. Nothing follows.
    Exit { code: i32 },
}

/// An [`Action`] as plain values.
pub enum ActionView {
    RemoveDir { path: Seq<char> },
    CreateDir { path: Seq<char> },
    Locate { path: Seq<char> },
    Load { path: Seq<char> },
    Launch { tools: Seq<ToolView>, dir: Seq<char>, keep: bool, capacity: nat },
    Receive,
    Exit { code: int },
}

impl View for Action {
    type V = ActionView;

    open spec fn view(&self) -> ActionView {
        match self {
            Action::RemoveDir { path } => ActionView::RemoveDir { path: path@ },
            Action::CreateDir { path } => ActionView::CreateDir { path: path@ },
            Action::Locate { path } => ActionView::Locate { path: path@ },
            Action::Load { path } => ActionView::Load { path: path@ },
            Action::Launch { tools, dir, keep, capacity } => ActionView::Launch {
                tools: tool_views(tools@),
                dir: dir@,
                keep: *keep,
                capacity: *capacity as nat,
            },
            Action::Receive => ActionView::Receive,
            Action::Exit { code } => ActionView::Exit { code: *code as int },
        }
    }
}

/// What the driver found when it did what an [`Action`] asked.
#[derive(Clone, Debug, PartialEq, Eq)]
pub enum Event {
    /// The directory was removed, or was not there.
    Removed,
    /// The directory is there and could not be removed, for `reason`.
    RemoveFailed { reason: String },
    /// The directory is there.
    Created,
    /// The directory could not be created, for `reason`.
    CreateFailed { reason: String },
    /// A file exists at the path, or none does.
    Located { found: bool },
    /// Whether a file exists at the path could not be found out.
    LocateFailed,
    /// The configuration file was read and holds `config`.
    Loaded { config: Config },
    /// The configuration file could not be read or does not hold a
    /// configuration.
    Malformed,
    /// The generations have been started.
    Launched,
    /// A generation reported `text`.
    Message { text: String },
    /// Every generation has ended and every status line has been received.
    Closed,
}

/// An [`Event`] as plain values.
pub enum EventView {
    Removed,
    RemoveFailed { reason: Seq<char> },
    Created,
    CreateFailed { reason: Seq<char> },
    Located { found: bool },
    LocateFailed,
    Loaded { config: Seq<ToolView> },
    Malformed,
    Launched,
    Message { text: Seq<char> },
    Closed,
}

impl View for Event {
    type V = EventView;

    open spec fn view(&self) -> EventView {
        match self {
            Event::Removed => EventView::Removed,
            Event::RemoveFailed { reason } => EventView::RemoveFailed { reason: reason@ },
            Event::Created => EventView::Created,
            Event::CreateFailed { reason } => EventView::CreateFailed { reason: reason@ },
            Event::Located { found } => EventView::Located { found: *found },
            Event::LocateFailed => EventView::LocateFailed,
            Event::Loaded { config } => EventView::Loaded { config: config@ },
            Event::Malformed => EventView::Malformed,
            Event::Launched => EventView::Launched,
            Event::Message { text } => EventView::Message { text: text@ },
            Event::Closed => EventView::Closed,
        }
    }
}

/// One move of a session: the lines to print, in order, and what to do
/// after printing them.
#[derive(Clone, Debug, PartialEq, Eq)]
pub struct Step {
    pub print: Vec<String>,
    pub action: Action,
}

/// A [`Step`] as plain values.
pub struct StepView {
    pub print: Seq<Seq<char>>,
    pub action: ActionView,
}

impl View for Step {
    type V = StepView;

    open spec fn view(&self) -> StepView {
        StepView { print: texts(self.print@), action: self.action@ }
    }
}

/// One run of the program.
#[derive(Clone, Debug, PartialEq, Eq)]
pub struct Session {
    /// What the run is for.
    pub command: Command,
    /// The directory that the completion files are written to.
    pub dir: String,
    /// The path of the configuration file.
    pub config_path: String,
    /// What the session waits for.
    pub phase: Phase,
}

/// A [`Session`] as plain values.
pub struct SessionView {
    pub command: Command,
    pub dir: Seq<char>,
    pub config_path: Seq<char>,
    pub phase: Phase,
}

impl View for Session {
    type V = SessionView;

    open spec fn view(&self) -> SessionView {
        SessionView {
            command: self.command,
            dir: self.dir@,
            config_path: self.config_path@,
            phase: self.phase,
        }
    }
}

/// How many status lines the queue of a run with `tools` tools holds: one
/// per tool, so that no generation ever waits to send its line, and one
/// where there is no tool, as a queue cannot hold less.
pub open spec fn queue_capacity(tools: nat) -> nat {
    if tools == 0 {
        1
    } else {
        tools
    }
}

/// The lines that show `tools`, one per tool, in their order.
pub open spec fn tool_lines_spec(tools: Seq<ToolView>) -> Seq<Seq<char>> {
    Seq::new(tools.len(), |i: int| tool_line_spec(tools[i]))
}

impl StepView {
    /// A step that prints nothing.
    pub open spec fn silent(action: ActionView) -> StepView {
        StepView { print: Seq::empty(), action }
    }

    /// A step that prints one line.
    pub open spec fn saying(line: Seq<char>, action: ActionView) -> StepView {
        StepView { print: seq![line], action }
    }

    /// A step that prints `line` unless `quiet` is set.
    pub open spec fn unless(quiet: bool, line: Seq<char>, action: ActionView) -> StepView {
        if quiet {
            StepView::silent(action)
        } else {
            StepView::saying(line, action)
        }
    }
}

impl SessionView {
    /// The session at another phase.
    pub open spec fn at(self, phase: Phase) -> SessionView {
        SessionView { phase, ..self }
    }

    /// The step that ends a run for want of a usable configuration file.
    pub open spec fn no_settings() -> StepView {
        StepView::saying(
            no_settings_spec(),
            ActionView::Exit { code: EXIT_NO_SETTINGS as int },
        )
    }

    /// A session for `command` in the environment `env`, and its first
    /// step. A build that does not keep existing files starts by removing
    /// the completion directory; every other run starts by looking for the
    /// configuration file.
    pub open spec fn start(command: Command, env: EnvironmentView) -> (SessionView, StepView) {
        let session = SessionView {
            command,
            dir: env.compfile_dir(),
            config_path: env.config_path(),
            phase: Phase::Locating,
        };
        match command {
            Command::Build { keep: false, .. } => (
                session.at(Phase::Removing),
                StepView::silent(ActionView::RemoveDir { path: session.dir }),
            ),
            _ => (session, StepView::silent(ActionView::Locate { path: session.config_path })),
        }
    }

    /// The session after `event` and its next step, or `None` where `event`
    /// does not answer what the session waits for.
    ///
    /// - After the removal the directory is created. A removal that failed
    ///   is reported with an error line and the run goes on; a creation that
    ///   failed ends the run with an error line and [`EXIT_FATAL`].
    /// - A configuration file that is missing, cannot be looked for or
    ///   cannot be read ends the run with one line and
    ///   [`EXIT_NO_SETTINGS`].
    /// - `getconfig` prints the path of the file once it is found and one
    ///   line per tool once it is read, and ends with [`EXIT_OK`].
    /// - `build` starts one generation per tool, then prints each status
    ///   line as it arrives and, when there are no more, the closing hint,
    ///   both unless it is quiet, and ends with [`EXIT_OK`].
    pub open spec fn step(self, event: EventView) -> Option<(SessionView, StepView)> {
        match (self.phase, event) {
            (Phase::Removing, EventView::Removed) => Some(
                (
                    self.at(Phase::Creating),
                    StepView::silent(ActionView::CreateDir { path: self.dir }),
                ),
            ),
            (Phase::Removing, EventView::RemoveFailed { reason }) => Some(
                (
                    self.at(Phase::Creating),
                    StepView::saying(
                        error_line_spec(reason),
                        ActionView::CreateDir { path: self.dir },
                    ),
                ),
            ),
            (Phase::Creating, EventView::Created) => Some(
                (
                    self.at(Phase::Locating),
                    StepView::silent(ActionView::Locate { path: self.config_path }),
                ),
            ),
            (Phase::Creating, EventView::CreateFailed { reason }) => Some(
                (
                    self.at(Phase::Finished),
                    StepView::saying(
                        error_line_spec(reason),
                        ActionView::Exit { code: EXIT_FATAL as int },
                    ),
                ),
            ),
            (Phase::Locating, EventView::Located { found: true }) => Some(
                (
                    self.at(Phase::Loading),
                    StepView::unless(
                        self.command is Build,
                        self.config_path,
                        ActionView::Load { path: self.config_path },
                    ),
                ),
            ),
            (Phase::Locating, EventView::Located { found: false }) => Some(
                (self.at(Phase::Finished), SessionView::no_settings()),
            ),
            (Phase::Locating, EventView::LocateFailed) => Some(
                (self.at(Phase::Finished), SessionView::no_settings()),
            ),
            (Phase::Loading, EventView::Loaded { config }) => match self.command {
                Command::Getconfig => Some(
                    (
                        self.at(Phase::Finished),
                        StepView {
                            print: tool_lines_spec(config),
                            action: ActionView::Exit { code: EXIT_OK as int },
                        },
                    ),
                ),
                Command::Build { keep, .. } => Some(
                    (
                        self.at(Phase::Launching),
                        StepView::silent(
                            ActionView::Launch {
                                tools: config,
                                dir: self.dir,
                                keep,
                                capacity: queue_capacity(config.len()),
                            },
                        ),
                    ),
                ),
            },
            (Phase::Loading, EventView::Malformed) => Some(
                (self.at(Phase::Finished), SessionView::no_settings()),
            ),
            (Phase::Launching, EventView::Launched) => Some(
                (self.at(Phase::Collecting), StepView::silent(ActionView::Receive)),
            ),
            (Phase::Collecting, EventView::Message { text }) => Some(
                (self, StepView::unless(self.quiet(), text, ActionView::Receive)),
            ),
            (Phase::Collecting, EventView::Closed) => Some(
                (
                    self.at(Phase::Finished),
                    StepView::unless(
                        self.quiet(),
                        fpath_hint_spec(self.dir),
                        ActionView::Exit { code: EXIT_OK as int },
                    ),
                ),
            ),
            _ => None,
        }
    }

    /// Whether the run is a build that prints neither status lines nor the
    /// closing hint.
    pub open spec fn quiet(self) -> bool {
        self.command matches Command::Build { quiet, .. } && quiet
    }
}

/// A step that prints nothing.
fn silent(action: Action) -> (step: Step)
    ensures
        step@ == StepView::silent(action@),
{
    let step = Step { print: Vec::new(), action };
    proof {
        assert(texts(step.print@) =~= Seq::<Seq<char>>::empty());
    }
    step
}

/// A step that prints one line.
fn saying(line: String, action: Action) -> (step: Step)
    ensures
        step@ == StepView::saying(line@, action@),
{
    let mut print: Vec<String> = Vec::new();
    print.push(line);
    proof {
        assert(texts(print@) =~= seq![line@]);
    }
    Step { print, action }
}

/// A step that prints `line` unless `quiet` is set.
fn unless(quiet: bool, line: String, action: Action) -> (step: Step)
    ensures
        step@ == StepView::unless(quiet, line@, action@),
{
    if quiet {
        silent(action)
    } else {
        saying(line, action)
    }
}

/// The step that ends a run for want of a usable configuration file.
fn settings_missing() -> (step: Step)
    ensures
        step@ == SessionView::no_settings(),
{
    saying(no_settings(), Action::Exit { code: EXIT_NO_SETTINGS })
}

/// The lines that show `tools`, one per tool, in their order.
pub fn tool_lines(tools: &Vec<ToolConfig>) -> (lines: Vec<String>)
    ensures
        texts(lines@) == tool_lines_spec(tool_views(tools@)),
{
    let mut lines: Vec<String> = Vec::new();
    let mut i: usize = 0;
    while i < tools.len()
        invariant
            i <= tools.len(),
            lines.len() == i,
            forall|k: int| 0 <= k < i ==> (#[trigger] lines[k])@ == tool_line_spec(tools[k]@),
        decreases tools.len() - i,
    {
        lines.push(tool_line(&tools[i]));
        i = i + 1;
    }
    lines
}

/// How many status lines the queue of a run with `tools` tools holds.
pub fn capacity_for(tools: usize) -> (capacity: usize)
    ensures
        capacity == queue_capacity(tools as nat),
{
    if tools == 0 {
        1
    } else {
        tools
    }
}

impl Session {
    /// Starts a run for `command` in the environment `env`.
    pub fn start(command: Command, env: &Environment) -> (started: (Session, Step))
        ensures
            (started.0@, started.1@) == SessionView::start(command, env@),
    {
        let dir = get_compfile_dir(env);
        let config_path = get_config_path(env);
        match command {
            Command::Build { keep: false, .. } => {
                let first = silent(Action::RemoveDir { path: dir.clone() });
                (Session { command, dir, config_path, phase: Phase::Removing }, first)
            },
            _ => {
                let first = silent(Action::Locate { path: config_path.clone() });
                (Session { command, dir, config_path, phase: Phase::Locating }, first)
            },
        }
    }

    /// Whether the session has told the process to exit.
    pub fn finished(&self) -> (done: bool)
        ensures
            done == (self@.phase == Phase::Finished),
    {
        match self.phase {
            Phase::Finished => true,
            _ => false,
        }
    }

    /// Whether the run is a build that prints neither status lines nor the
    /// closing hint.
    pub fn quiet(&self) -> (quiet: bool)
        ensures
            quiet == self@.quiet(),
    {
        match self.command {
            Command::Build { quiet, .. } => quiet,
            Command::Getconfig => false,
        }
    }

    /// Takes the answer to the last action and gives the next step, or
    /// `None`, leaving the session as it was, where `event` does not answer
    /// what the session waits for.
    pub fn step(&mut self, event: Event) -> (step: Option<Step>)
        ensures
            match old(self)@.step(event@) {
                Some((next, taken)) => {
                    &&& final(self)@ == next
                    &&& step matches Some(s)
                    &&& s@ == taken
                },
                None => final(self)@ == old(self)@ && step is None,
            },
    {
        match (self.phase, event) {
            (Phase::Removing, Event::Removed) => {
                self.phase = Phase::Creating;
                Some(silent(Action::CreateDir { path: self.dir.clone() }))
            },
            (Phase::Removing, Event::RemoveFailed { reason }) => {
                self.phase = Phase::Creating;
                Some(
                    saying(
                        error_line(reason.as_str()),
                        Action::CreateDir { path: self.dir.clone() },
                    ),
                )
            },
            (Phase::Creating, Event::Created) => {
                self.phase = Phase::Locating;
                Some(silent(Action::Locate { path: self.config_path.clone() }))
            },
            (Phase::Creating, Event::CreateFailed { reason }) => {
                self.phase = Phase::Finished;
                Some(saying(error_line(reason.as_str()), Action::Exit { code: EXIT_FATAL }))
            },
            (Phase::Locating, Event::Located { found }) => {
                if found {
                    self.phase = Phase::Loading;
                    let building = match self.command {
                        Command::Build { .. } => true,
                        Command::Getconfig => false,
                    };
                    Some(
                        unless(
                            building,
                            self.config_path.clone(),
                            Action::Load { path: self.config_path.clone() },
                        ),
                    )
                } else {
                    self.phase = Phase::Finished;
                    Some(settings_missing())
                }
            },
            (Phase::Locating, Event::LocateFailed) => {
                self.phase = Phase::Finished;
                Some(settings_missing())
            },
            (Phase::Loading, Event::Loaded { config }) => {
                match self.command {
                    Command::Getconfig => {
                        self.phase = Phase::Finished;
                        let print = tool_lines(&config.tool);
                        Some(Step { print, action: Action::Exit { code: EXIT_OK } })
                    },
                    Command::Build { keep, .. } => {
                        self.phase = Phase::Launching;
                        let capacity = capacity_for(config.tool.len());
                        Some(
                            silent(
                                Action::Launch {
                                    tools: config.tool,
                                    dir: self.dir.clone(),
                                    keep,
                                    capacity,
                                },
                            ),
                        )
                    },
                }
            },
            (Phase::Loading, Event::Malformed) => {
                self.phase = Phase::Finished;
                Some(settings_missing())
            },
            (Phase::Launching, Event::Launched) => {
                self.phase = Phase::Collecting;
                Some(silent(Action::Receive))
            },
            (Phase::Collecting, Event::Message { text }) => {
                Some(unless(self.quiet(), text, Action::Receive))
            },
            (Phase::Collecting, Event::Closed) => {
                self.phase = Phase::Finished;
                let hint = fpath_hint(self.dir.as_str());
                Some(unless(self.quiet(), hint, Action::Exit { code: EXIT_OK }))
            },
            _ => None,
        }
    }
}

} // verus!
