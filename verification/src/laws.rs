//! What a build achieves, whatever the order in which its session and its
//! generations get to move.
//!
//! Each law speaks of a [`Scenario`] and of every sequence of [`Turn`]s: of
//! every interleaving of the concurrent generations with each other and
//! with the session that collects their status lines.

use vstd::prelude::*;
use crate::config::names_unique;
use crate::generate::RequestView;
use crate::invariants::{
    closing, compfile_path_inside, compfile_paths_differ, ended_weight, files_in_order, fits,
    foreign, line_shape, lines, rested, run_in_shape, run_keeps_files, runs_for, same_at, shape,
    task_files, task_shape, total, total_below, total_uniform, total_update,
};
use crate::report::{
    error_line_spec, failure_message_spec, no_settings_spec, status_message_spec, Outcome,
    EXIT_FATAL, EXIT_NO_SETTINGS, EXIT_OK,
};
use crate::session::{tool_lines_spec, ActionView, Command, EventView, Phase, SessionView};
use crate::system::{inside, Host, Scenario, System, Task, Turn};

verus! {

// What a build leaves behind.

/// A build that went through has received exactly one status line from
/// each configured tool, in whatever order they came, and has printed them
/// in that order, followed by the closing hint, unless it is quiet; before
/// them stands only the reason why the completion directory could not be
/// removed, where it was to be and could not.
///
/// Each line names the outcome of its generation and the tool's command,
/// and the reason where the command could not be started. A generation
/// completed its file only if the command could be started, and then ran
/// it once; it failed only if the command could not be started; and where
/// it kept its file or failed, it ran no program.
pub proof fn every_tool_reports_once(sc: Scenario, turns: Seq<Turn>)
    requires
        sc.command is Build,
        sc.after(turns).exit == Some(EXIT_OK as int),
    ensures
        ({
            let end = sc.after(turns);
            let n = sc.tools().len();
            &&& sc.host.config is Some
            &&& end.tasks.len() == n
            &&& end.received.len() == n
            &&& end.queue.len() == 0
            &&& forall|k: int|
                0 <= k < n ==> {
                    let line = #[trigger] end.received[k];
                    &&& 0 <= line.task < n
                    &&& end.tasks[line.task].slot == Some(k)
                    &&& fits(sc, line.task, line.outcome)
                    &&& line.message == sc.report(line.task, line.outcome)
                }
            &&& forall|i: int|
                0 <= i < n ==> {
                    let task = #[trigger] end.tasks[i];
                    &&& task.pending is None
                    &&& task.slot matches Some(k)
                    &&& 0 <= k < n
                    &&& end.received[k].task == i
                    &&& task.runs == runs_for(end.received[k].outcome)
                }
            &&& end.printed == sc.complaint() + if sc.quiet() {
                Seq::<Seq<char>>::empty()
            } else {
                lines(end.received) + closing(sc)
            }
        }),
{
    let end = sc.after(turns);
    let n = sc.tools().len();
    run_in_shape(sc, turns);
    total_uniform(end.tasks, ended_weight(), 1);
    assert forall|k: int| 0 <= k < n implies {
        let line = #[trigger] end.received[k];
        &&& 0 <= line.task < n
        &&& end.tasks[line.task].slot == Some(k)
        &&& fits(sc, line.task, line.outcome)
        &&& line.message == sc.report(line.task, line.outcome)
    } by {
        assert(line_shape(sc, end, k));
    }
    assert forall|i: int| 0 <= i < n implies {
        let task = #[trigger] end.tasks[i];
        &&& task.pending is None
        &&& task.slot matches Some(k)
        &&& 0 <= k < n
        &&& end.received[k].task == i
        &&& task.runs == runs_for(end.received[k].outcome)
    } by {
        assert(task_shape(sc, end, i));
        assert(line_shape(sc, end, end.tasks[i].slot->0));
    }
    if sc.quiet() {
        assert(end.printed =~= sc.complaint() + Seq::<Seq<char>>::empty());
    } else {
        assert(end.printed =~= sc.complaint() + (lines(end.received) + closing(sc)));
    }
}

/// What holds of the tool at place `i` once a build went through, where no
/// two tools share a name.
proof fn tool_at_end(sc: Scenario, end: System, i: int)
    requires
        shape(sc, end),
        files_in_order(sc, end),
        sc.command is Build,
        end.exit == Some(EXIT_OK as int),
        0 <= i < sc.tools().len(),
    ensures
        end.tasks.len() == sc.tools().len(),
        rested(sc, end, i),
        end.tasks[i].slot is Some,
        ({
            let k = end.tasks[i].slot->0;
            &&& 0 <= k < end.received.len()
            &&& end.received[k].task == i
            &&& end.received[k].outcome == sc.outcome(i)
            &&& end.received[k].message == sc.message(i)
            &&& end.tasks[i].runs == runs_for(sc.outcome(i))
        }),
{
    assert(task_shape(sc, end, i));
    assert(task_files(sc, end, i));
    assert(line_shape(sc, end, end.tasks[i].slot->0));
}

/// Where no two tools share a name, a build that went through leaves one
/// completion file for each tool whose generation did not fail, each at a
/// path of its own in the completion directory, and has touched no other
/// file since the generations were started. A file that was kept holds what
/// it held; a file that was completed holds, byte for byte, what the tool's
/// command printed; and where the command could not be started, the file
/// is as it was, there or not. The status line of each tool tells which of
/// the three it was, and a program was run for the tool only if its file
/// was completed.
///
/// None of this depends on the order of the turns.
pub proof fn every_tool_gets_its_file(sc: Scenario, turns: Seq<Turn>)
    requires
        sc.command is Build,
        names_unique(sc.tools()),
        sc.after(turns).exit == Some(EXIT_OK as int),
    ensures
        ({
            let end = sc.after(turns);
            let n = sc.tools().len();
            &&& end.tasks.len() == n
            &&& end.received.len() == n
            &&& forall|i: int, j: int|
                0 <= i < n && 0 <= j < n && i != j ==> #[trigger] sc.path(i) != #[trigger] sc.path(
                    j,
                )
            &&& forall|i: int|
                0 <= i < n ==> {
                    let path = #[trigger] sc.path(i);
                    &&& inside(sc.dir(), path)
                    &&& if sc.outcome(i) == Outcome::Failed {
                        same_at(end.files, sc.launch_files(), path)
                    } else {
                        end.files.dom().contains(path) && end.files[path] == sc.contents(i)
                    }
                }
            &&& forall|i: int|
                0 <= i < n ==> {
                    let task = #[trigger] end.tasks[i];
                    &&& task.slot matches Some(k)
                    &&& 0 <= k < n
                    &&& end.received[k].task == i
                    &&& end.received[k].outcome == sc.outcome(i)
                    &&& end.received[k].message == sc.message(i)
                    &&& task.runs == runs_for(sc.outcome(i))
                }
            &&& forall|path: Seq<char>| #[trigger]
                foreign(sc, end, path) ==> same_at(end.files, sc.launch_files(), path)
        }),
{
    let end = sc.after(turns);
    let n = sc.tools().len();
    run_keeps_files(sc, turns);
    every_tool_reports_once(sc, turns);
    assert forall|i: int, j: int| 0 <= i < n && 0 <= j < n && i != j implies #[trigger] sc.path(i)
        != #[trigger] sc.path(j) by {
        compfile_paths_differ(sc.dir(), sc.tools()[i].name, sc.tools()[j].name);
    }
    assert forall|i: int| 0 <= i < n implies {
        let path = #[trigger] sc.path(i);
        &&& inside(sc.dir(), path)
        &&& if sc.outcome(i) == Outcome::Failed {
            same_at(end.files, sc.launch_files(), path)
        } else {
            end.files.dom().contains(path) && end.files[path] == sc.contents(i)
        }
    } by {
        tool_at_end(sc, end, i);
        compfile_path_inside(sc.dir(), sc.tools()[i].name);
    }
    assert forall|i: int| 0 <= i < n implies {
        let task = #[trigger] end.tasks[i];
        &&& task.slot matches Some(k)
        &&& 0 <= k < n
        &&& end.received[k].task == i
        &&& end.received[k].outcome == sc.outcome(i)
        &&& end.received[k].message == sc.message(i)
        &&& task.runs == runs_for(sc.outcome(i))
    } by {
        tool_at_end(sc, end, i);
    }
}

/// Where no two tools share a name, the completion file of a tool whose
/// file was not kept and whose command could be started holds exactly the
/// bytes that the command printed, once the build went through.
pub proof fn completed_file_holds_output(sc: Scenario, turns: Seq<Turn>, i: int)
    requires
        sc.command is Build,
        names_unique(sc.tools()),
        sc.after(turns).exit == Some(EXIT_OK as int),
        0 <= i < sc.tools().len(),
        !sc.kept(i),
        sc.failure(i) is None,
    ensures
        sc.after(turns).files.dom().contains(sc.path(i)),
        sc.after(turns).files[sc.path(i)] == sc.host.prints(sc.tools()[i].command),
{
    every_tool_gets_its_file(sc, turns);
    assert(sc.outcome(i) == Outcome::Completed);
    assert(inside(sc.dir(), sc.path(i)));
}

/// Where no two tools share a name, a tool whose file was not kept and
/// whose command could not be started has still sent its status line, once
/// the build went through: the line says that the generation failed and
/// why, no program was run, and the tool's file is as it was when the
/// generations were started, there or not.
pub proof fn failed_tool_is_reported(sc: Scenario, turns: Seq<Turn>, i: int)
    requires
        sc.command is Build,
        names_unique(sc.tools()),
        sc.after(turns).exit == Some(EXIT_OK as int),
        0 <= i < sc.tools().len(),
        !sc.kept(i),
        sc.failure(i) is Some,
    ensures
        ({
            let end = sc.after(turns);
            let task = end.tasks[i];
            &&& task.runs == 0
            &&& task.slot matches Some(k)
            &&& 0 <= k < end.received.len()
            &&& end.received[k].outcome == Outcome::Failed
            &&& end.received[k].message == failure_message_spec(
                sc.tools()[i].command,
                sc.failure(i)->0,
            )
            &&& same_at(end.files, sc.launch_files(), sc.path(i))
        }),
{
    every_tool_gets_its_file(sc, turns);
    assert(sc.outcome(i) == Outcome::Failed);
    assert(inside(sc.dir(), sc.path(i)));
    assert(sc.after(turns).tasks[i].slot is Some);
}

/// A build that keeps existing files, run after a build that went through,
/// runs no program for any tool whose file the first build kept or
/// completed under the same name: it reports the tool as kept and leaves
/// its file as the first build left it.
pub proof fn rebuild_keeps_what_was_built(
    first: Scenario,
    turns: Seq<Turn>,
    second: Scenario,
    again: Seq<Turn>,
    i: int,
    j: int,
)
    requires
        first.command is Build,
        names_unique(first.tools()),
        first.after(turns).exit == Some(EXIT_OK as int),
        second.command is Build,
        second.keep(),
        names_unique(second.tools()),
        second.env == first.env,
        second.files == first.after(turns).files,
        second.after(again).exit == Some(EXIT_OK as int),
        0 <= i < second.tools().len(),
        0 <= j < first.tools().len(),
        second.tools()[i].name == first.tools()[j].name,
        first.outcome(j) != Outcome::Failed,
    ensures
        ({
            let end = second.after(again);
            let task = end.tasks[i];
            &&& task.runs == 0
            &&& task.slot matches Some(k)
            &&& end.received[k].outcome == Outcome::Kept
            &&& end.received[k].message == status_message_spec(
                Outcome::Kept,
                second.tools()[i].command,
            )
            &&& end.files.dom().contains(second.path(i))
            &&& end.files[second.path(i)] == first.after(turns).files[first.path(j)]
        }),
{
    every_tool_gets_its_file(first, turns);
    every_tool_gets_its_file(second, again);
    assert(second.path(i) == first.path(j));
    assert(second.kept(i));
    assert(second.after(again).tasks[i].slot is Some);
}

// Builds that reset the directory.

/// In a build that does not keep existing files, the first two things done
/// are the removal and the creation of the completion directory: nothing
/// has been done while the session waits for the removal, only the removal
/// while it waits for the creation, and the generations are started after
/// both.
pub open spec fn reset_first(sc: Scenario, sys: System) -> bool {
    &&& sys.session.phase == Phase::Removing <==> sys.done.len() == 0
    &&& sys.session.phase == Phase::Creating <==> sys.done.len() == 1
    &&& sys.done.len() >= 1 ==> sys.done[0] == ActionView::RemoveDir { path: sc.dir() }
    &&& sys.done.len() >= 2 ==> sys.done[1] == ActionView::CreateDir { path: sc.dir() }
    &&& forall|k: int| 0 <= k < sys.done.len() && (#[trigger] sys.done[k]) is Launch ==> k >= 2
}

/// In every state that a build that does not keep existing files can
/// reach, the reset came first.
proof fn run_resets_first(sc: Scenario, turns: Seq<Turn>)
    requires
        sc.resets(),
    ensures
        reset_first(sc, sc.after(turns)),
    decreases turns.len(),
{
    if turns.len() > 0 {
        let before = turns.drop_last();
        run_resets_first(sc, before);
        run_in_shape(sc, before);
    }
}

/// A build that does not keep existing files removes the completion
/// directory and creates it again before it does anything else, and so
/// before it starts any generation.
pub proof fn reset_comes_first(sc: Scenario, turns: Seq<Turn>)
    requires
        sc.resets(),
    ensures
        ({
            let done = sc.after(turns).done;
            &&& done.len() >= 1 ==> done[0] == ActionView::RemoveDir { path: sc.dir() }
            &&& done.len() >= 2 ==> done[1] == ActionView::CreateDir { path: sc.dir() }
            &&& forall|k: int| 0 <= k < done.len() && (#[trigger] done[k]) is Launch ==> k >= 2
            &&& sc.after(turns).tasks.len() > 0 ==> done.len() >= 2
        }),
{
    run_resets_first(sc, turns);
    run_in_shape(sc, turns);
}

/// Where the completion directory cannot be removed, a build that does not
/// keep existing files says so before anything else.
pub open spec fn removal_reported(sc: Scenario, sys: System) -> bool {
    sys.session.phase != Phase::Removing ==> {
        &&& sys.printed.len() >= 1
        &&& sys.printed[0] == error_line_spec(sc.host.remove_error->0)
    }
}

/// In every state that a build that does not keep existing files can reach
/// where the completion directory cannot be removed, it has said so.
proof fn run_reports_removal(sc: Scenario, turns: Seq<Turn>)
    requires
        sc.resets(),
        sc.host.remove_error is Some,
    ensures
        removal_reported(sc, sc.after(turns)),
    decreases turns.len(),
{
    if turns.len() > 0 {
        let before = turns.drop_last();
        run_reports_removal(sc, before);
        run_in_shape(sc, before);
        run_in_shape(sc, turns);
    }
}

/// Where the completion directory is there and cannot be removed, a build
/// that does not keep existing files reports the reason as an error, as the
/// first line it prints, and goes on: it asks for the directory to be
/// created next and has not exited. What the directory held is still
/// there, so what [`reset_leaves_no_stale_file`] says of a directory that
/// could be removed is not promised.
pub proof fn failed_removal_is_reported(sc: Scenario, turns: Seq<Turn>)
    requires
        sc.resets(),
        sc.host.remove_error is Some,
        sc.after(turns).done.len() >= 1,
    ensures
        ({
            let sys = sc.after(turns);
            &&& sys.done[0] == ActionView::RemoveDir { path: sc.dir() }
            &&& sys.printed.len() >= 1
            &&& sys.printed[0] == error_line_spec(sc.host.remove_error->0)
            &&& sc.launch_files() == sc.files
            &&& sys.done.len() == 1 ==> {
                &&& sys.pending == ActionView::CreateDir { path: sc.dir() }
                &&& sys.exit is None
                &&& sys.files == sc.files
            }
        }),
{
    run_resets_first(sc, turns);
    run_reports_removal(sc, turns);
    run_in_shape(sc, turns);
    removal_leaves_files(sc, turns);
}

/// While no generation has been started, a failed removal of the
/// completion directory has left the files as they were.
proof fn removal_leaves_files(sc: Scenario, turns: Seq<Turn>)
    requires
        sc.resets(),
        sc.host.remove_error is Some,
    ensures
        sc.after(turns).tasks.len() == 0 ==> sc.after(turns).files == sc.files,
    decreases turns.len(),
{
    if turns.len() > 0 {
        let before = turns.drop_last();
        removal_leaves_files(sc, before);
        run_in_shape(sc, before);
        run_in_shape(sc, turns);
    }
}

/// In a build that does not keep existing files, once the completion
/// directory has been removed, every file in it is the completion file of
/// a configured tool whose generation has been started: what an earlier
/// build left there for a tool that is no longer configured is gone.
pub proof fn reset_leaves_no_stale_file(sc: Scenario, turns: Seq<Turn>, path: Seq<char>)
    requires
        sc.resets(),
        sc.host.remove_error is None,
        names_unique(sc.tools()),
        sc.after(turns).session.phase != Phase::Removing,
        sc.after(turns).exit != Some(EXIT_FATAL as int),
        inside(sc.dir(), path),
        sc.after(turns).files.dom().contains(path),
    ensures
        exists|i: int| 0 <= i < sc.after(turns).tasks.len() && path == #[trigger] sc.path(i),
{
    let sys = sc.after(turns);
    run_keeps_files(sc, turns);
    if foreign(sc, sys, path) {
        assert(same_at(sys.files, sc.launch_files(), path));
    }
}

/// In a build that does not keep existing files, could remove the
/// completion directory and went through, where no two tools share a name,
/// the files in the completion directory are the completion files of the
/// configured tools whose commands could be started, and no others.
pub proof fn reset_build_leaves_only_its_files(sc: Scenario, turns: Seq<Turn>, path: Seq<char>)
    requires
        sc.resets(),
        sc.host.remove_error is None,
        names_unique(sc.tools()),
        sc.after(turns).exit == Some(EXIT_OK as int),
        inside(sc.dir(), path),
    ensures
        sc.after(turns).files.dom().contains(path) <==> exists|i: int|
            0 <= i < sc.tools().len() && path == #[trigger] sc.path(i) && sc.failure(i) is None,
{
    let sys = sc.after(turns);
    every_tool_gets_its_file(sc, turns);
    run_in_shape(sc, turns);
    if sys.files.dom().contains(path) {
        reset_leaves_no_stale_file(sc, turns, path);
    }
}

// Quiet builds.

/// The scenario of the same build, told to be quiet.
pub open spec fn hushed(sc: Scenario) -> Scenario {
    match sc.command {
        Command::Build { keep, .. } => Scenario {
            command: Command::Build { keep, quiet: true },
            ..sc
        },
        Command::Getconfig => sc,
    }
}

/// Whether two sessions differ at most in whether they are quiet.
pub open spec fn sessions_alike(one: SessionView, other: SessionView) -> bool {
    &&& one.phase == other.phase
    &&& one.dir == other.dir
    &&& one.config_path == other.config_path
    &&& one.command is Build == other.command is Build
    &&& one.command is Build ==> one.command->keep == other.command->keep
}

/// Whether two systems differ at most in what they have printed and in
/// whether their sessions are quiet.
pub open spec fn alike(one: System, other: System) -> bool {
    &&& sessions_alike(one.session, other.session)
    &&& one.pending == other.pending
    &&& one.done == other.done
    &&& one.tasks == other.tasks
    &&& one.capacity == other.capacity
    &&& one.queue == other.queue
    &&& one.received == other.received
    &&& one.files == other.files
    &&& one.exit == other.exit
}

/// Two sessions that differ at most in whether they are quiet answer an
/// event with the same action and stay so.
proof fn step_alike(one: SessionView, other: SessionView, event: EventView)
    requires
        sessions_alike(one, other),
    ensures
        match (one.step(event), other.step(event)) {
            (Some((next, step)), Some((other_next, other_step))) => {
                &&& sessions_alike(next, other_next)
                &&& step.action == other_step.action
            },
            (None, None) => true,
            _ => false,
        },
{
}

/// Two systems that differ at most in what they have printed and in
/// whether their sessions are quiet stay so when both take the same turn.
proof fn advance_alike(one: System, other: System, host: Host, turn: Turn)
    requires
        alike(one, other),
    ensures
        alike(one.advance(host, turn), other.advance(host, turn)),
{
    assert(one.ready(turn) == other.ready(turn)) by {
        assert(one.all_ended() == other.all_ended());
    }
    if one.ready(turn) && turn is Session && !(one.pending is Exit) {
        let (event, after) = one.perform(host)->0;
        let (same, other_after) = other.perform(host)->0;
        assert(event == same);
        assert(alike(after, other_after));
        step_alike(one.session, other.session, event);
    }
}

/// A quiet build that went through has printed nothing but what it had to
/// say about its completion directory.
proof fn quiet_prints_nothing(sc: Scenario, turns: Seq<Turn>)
    requires
        sc.command is Build,
    ensures
        sc.after(turns).exit == Some(EXIT_OK as int) && sc.quiet() ==> sc.after(turns).printed
            == sc.complaint(),
{
    if sc.after(turns).exit == Some(EXIT_OK as int) {
        every_tool_reports_once(sc, turns);
    }
}

/// A quiet build does to the files what the same build does when it is not
/// quiet, turn for turn, and ends as it does; and where it goes through it
/// has printed no status line and no closing hint: nothing at all, or only
/// the reason why the completion directory could not be removed, which is
/// an error and is printed whether or not the build is quiet.
pub proof fn quiet_only_silences(sc: Scenario, turns: Seq<Turn>)
    requires
        sc.command is Build,
    ensures
        alike(hushed(sc).after(turns), sc.after(turns)),
        hushed(sc).after(turns).exit == Some(EXIT_OK as int) ==> hushed(sc).after(turns).printed
            == sc.complaint(),
    decreases turns.len(),
{
    let quiet = hushed(sc);
    if turns.len() > 0 {
        let before = turns.drop_last();
        quiet_only_silences(sc, before);
        advance_alike(quiet.after(before), sc.after(before), sc.host, turns.last());
    }
    quiet_prints_nothing(quiet, turns);
}

// Runs that end early, and runs on a machine where nothing goes wrong.

/// A `getconfig` that went through has printed the path of the
/// configuration file and then one line for each tool that the file lists,
/// in the order of the file, and has started no generation.
pub proof fn getconfig_shows_every_tool(sc: Scenario, turns: Seq<Turn>)
    requires
        sc.command is Getconfig,
        sc.after(turns).exit == Some(EXIT_OK as int),
    ensures
        sc.host.config is Some,
        sc.after(turns).printed == seq![sc.env.config_path()] + tool_lines_spec(sc.tools()),
        sc.after(turns).tasks.len() == 0,
{
    run_in_shape(sc, turns);
}

/// Where the configuration file is missing, cannot be looked for or cannot
/// be read, a run whose completion directory could be reset, if it was to
/// be, ends with [`EXIT_NO_SETTINGS`], whether or not it is quiet. The last
/// line it has printed says that no settings were found, and it has started
/// no generation.
pub proof fn run_without_settings_fails(sc: Scenario, turns: Seq<Turn>)
    requires
        sc.host.located != Some(true) || sc.host.config is None,
        sc.resets() ==> sc.host.create_error is None,
        sc.after(turns).exit is Some,
    ensures
        sc.after(turns).exit == Some(EXIT_NO_SETTINGS as int),
        sc.after(turns).printed.len() > 0,
        sc.after(turns).printed.last() == no_settings_spec(),
        sc.after(turns).tasks.len() == 0,
{
    run_in_shape(sc, turns);
}

/// Where the completion directory cannot be created, a build that does not
/// keep existing files ends with [`EXIT_FATAL`]. It has printed the reason
/// as an error, after the reason why the directory could not be removed, if
/// it could not, and nothing else, and has started no generation.
pub proof fn failed_reset_is_fatal(sc: Scenario, turns: Seq<Turn>)
    requires
        sc.resets(),
        sc.host.create_error is Some,
        sc.after(turns).exit is Some,
    ensures
        sc.after(turns).exit == Some(EXIT_FATAL as int),
        sc.after(turns).printed == sc.complaint() + seq![
            error_line_spec(sc.host.create_error->0),
        ],
        sc.after(turns).tasks.len() == 0,
{
    run_in_shape(sc, turns);
}

/// Whether nothing goes wrong on the machine that ends a run: the
/// configuration file is there and lists tools, the completion directory
/// can be created and every file can be written. A completion directory
/// that cannot be removed and a command that cannot be started end no run.
pub open spec fn healthy(host: Host) -> bool {
    &&& host.located == Some(true)
    &&& host.config is Some
    &&& host.create_error is None
    &&& forall|path: Seq<char>| (#[trigger] (host.write_error)(path)) is None
}

/// Whether nothing has gone wrong in a run: no generation is about to end
/// the process, and the session is not about to exit, nor has the process
/// exited, with another status than [`EXIT_OK`].
pub open spec fn sound(sys: System) -> bool {
    &&& sys.exit matches Some(code) ==> code == EXIT_OK
    &&& sys.pending matches ActionView::Exit { code } ==> code == EXIT_OK
    &&& forall|i: int|
        0 <= i < sys.tasks.len() ==> !((#[trigger] sys.tasks[i]).pending matches Some(
            RequestView::Abort { .. },
        ))
}

/// On a machine where nothing goes wrong, nothing goes wrong in a run.
proof fn healthy_run_stays_sound(sc: Scenario, turns: Seq<Turn>)
    requires
        healthy(sc.host),
    ensures
        sound(sc.after(turns)),
    decreases turns.len(),
{
    if turns.len() > 0 {
        let before = turns.drop_last();
        healthy_run_stays_sound(sc, before);
        run_in_shape(sc, before);
        let sys = sc.after(before);
        if let Turn::Task(i) = turns.last() {
            if sys.ready(turns.last()) {
                assert(task_shape(sc, sys, i));
            }
        }
    }
}

/// On a machine where nothing goes wrong that ends a run, every run goes
/// through: when the process has exited, in whatever order the turns were
/// taken, it has exited with [`EXIT_OK`], also where the completion
/// directory could not be removed or a command could not be started.
pub proof fn healthy_run_goes_through(sc: Scenario, turns: Seq<Turn>)
    requires
        healthy(sc.host),
        sc.after(turns).exit is Some,
    ensures
        sc.after(turns).exit == Some(EXIT_OK as int),
{
    healthy_run_stays_sound(sc, turns);
}

// Progress and termination.

/// A run that has not exited can always move on: the session or one of its
/// generations can take a turn, however many tools are configured, and also
/// where none is.
///
/// The session waits only while the queue is empty and a generation is
/// still at work, and then that generation can move: it never waits to send
/// its status line, as the queue has room for one line per tool.
pub proof fn never_stuck(sc: Scenario, turns: Seq<Turn>)
    requires
        sc.after(turns).exit is None,
    ensures
        exists|turn: Turn| #[trigger] sc.after(turns).ready(turn),
{
    let sys = sc.after(turns);
    run_in_shape(sc, turns);
    if !sys.ready(Turn::Session) {
        let i = choose|i: int| 0 <= i < sys.tasks.len() && !((#[trigger] sys.tasks[i]).pending is None);
        total_below(sys.tasks, ended_weight(), 1, i);
        assert(sys.ready(Turn::Task(i)));
    }
}

/// How many turns a task has left at most, counting twice the one that
/// sends its status line, which the session has to receive as well.
pub open spec fn effort() -> spec_fn(Task) -> nat {
    |task: Task|
        match task.pending {
            Some(RequestView::Probe { .. }) => 5nat,
            Some(RequestView::Run { .. }) => 4nat,
            Some(RequestView::Write { .. }) => 3nat,
            Some(RequestView::Report { .. }) => 2nat,
            Some(RequestView::Abort { .. }) => 2nat,
            None => 0nat,
        }
}

/// How many turns a session has left at most before it starts to collect
/// status lines, and then to end when there are no more.
pub open spec fn phase_effort(phase: Phase) -> nat {
    match phase {
        Phase::Removing => 6,
        Phase::Creating => 5,
        Phase::Locating => 4,
        Phase::Loading => 3,
        Phase::Launching => 2,
        Phase::Collecting => 1,
        Phase::Finished => 0,
    }
}

/// How many turns a run has left at most: those of its session, those of
/// its tasks, five for each task that is yet to be started, one for each
/// status line in the queue, and one for exiting.
pub open spec fn budget(sc: Scenario, sys: System) -> nat {
    let exiting: nat = if sys.exit is None {
        1
    } else {
        0
    };
    let working: nat = match sys.session.phase {
        Phase::Collecting | Phase::Finished => total(sys.tasks, effort()) + sys.queue.len(),
        _ => 5 * sc.tools().len(),
    };
    exiting + phase_effort(sys.session.phase) + working
}

/// How many of `turns` were taken: how many found the session, or their
/// task, able to move.
pub open spec fn taken(sc: Scenario, turns: Seq<Turn>) -> nat
    decreases turns.len(),
{
    if turns.len() == 0 {
        0
    } else {
        let before = taken(sc, turns.drop_last());
        if sc.after(turns.drop_last()).ready(turns.last()) {
            before + 1
        } else {
            before
        }
    }
}

/// A turn that is taken lowers the budget.
proof fn turn_spends(sc: Scenario, sys: System, turn: Turn)
    requires
        shape(sc, sys),
        sys.ready(turn),
    ensures
        budget(sc, sys.advance(sc.host, turn)) < budget(sc, sys),
{
    let next = sys.advance(sc.host, turn);
    match turn {
        Turn::Session => {
            if sys.session.phase == Phase::Launching {
                total_uniform(next.tasks, effort(), 5);
            }
        },
        Turn::Task(i) => {
            assert(task_shape(sc, sys, i));
            total_update(sys.tasks, effort(), i, next.tasks[i]);
        },
    }
}

/// The turns taken so far and the turns left never add up to more than
/// seven and five for each configured tool.
proof fn run_within_budget(sc: Scenario, turns: Seq<Turn>)
    ensures
        taken(sc, turns) + budget(sc, sc.after(turns)) <= 7 + 5 * sc.tools().len(),
    decreases turns.len(),
{
    if turns.len() > 0 {
        let before = turns.drop_last();
        run_within_budget(sc, before);
        run_in_shape(sc, before);
        if sc.after(before).ready(turns.last()) {
            turn_spends(sc, sc.after(before), turns.last());
        }
    }
}

/// No run goes on forever: in whatever order the turns come, no more than
/// seven and five for each configured tool are taken, and fewer while the
/// process has not exited. With [`never_stuck`], which says that a turn can
/// be taken until then, every run comes to its end, whether it waits for a
/// generation or for the end of the status lines, and also where no tool is
/// configured.
pub proof fn run_is_bounded(sc: Scenario, turns: Seq<Turn>)
    ensures
        taken(sc, turns) <= 7 + 5 * sc.tools().len(),
        sc.after(turns).exit is None ==> taken(sc, turns) < 7 + 5 * sc.tools().len(),
{
    run_within_budget(sc, turns);
}

/// However far a run has come, turns can be added that bring it to its
/// end.
pub proof fn some_run_ends(sc: Scenario, turns: Seq<Turn>) -> (rest: Seq<Turn>)
    ensures
        sc.after(turns + rest).exit is Some,
    decreases budget(sc, sc.after(turns)),
{
    if sc.after(turns).exit is Some {
        Seq::empty()
    } else {
        never_stuck(sc, turns);
        let turn = choose|turn: Turn| #[trigger] sc.after(turns).ready(turn);
        let longer = turns.push(turn);
        assert(longer.drop_last() =~= turns);
        run_in_shape(sc, turns);
        turn_spends(sc, sc.after(turns), turn);
        let more = some_run_ends(sc, longer);
        assert(turns + (seq![turn] + more) =~= longer + more);
        seq![turn] + more
    }
}

} // verus!
