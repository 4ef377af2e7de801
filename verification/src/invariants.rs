//! What holds of every state that a run can reach, and why.

use vstd::prelude::*;
use crate::config::names_unique;
use crate::generate::{shell_args, shell_program, RequestView, Stage};
use crate::paths::{compfile_path_spec, join_spec};
use crate::report::{
    error_line_spec, fpath_hint_spec, no_settings_spec, Outcome, EXIT_FATAL,
    EXIT_NO_SETTINGS, EXIT_OK,
};
use crate::session::{queue_capacity, tool_lines_spec, ActionView, Phase};
use crate::system::{inside, Files, Scenario, StatusLine, System, Task, Turn};

verus! {

/// The sum of `weight` over `tasks`.
pub open spec fn total(tasks: Seq<Task>, weight: spec_fn(Task) -> nat) -> nat
    decreases tasks.len(),
{
    if tasks.len() == 0 {
        0
    } else {
        total(tasks.drop_last(), weight) + weight(tasks.last())
    }
}

/// Replacing one task changes the sum by the difference of the weights.
pub proof fn total_update(tasks: Seq<Task>, weight: spec_fn(Task) -> nat, i: int, task: Task)
    requires
        0 <= i < tasks.len(),
    ensures
        total(tasks.update(i, task), weight) + weight(tasks[i]) == total(tasks, weight) + weight(
            task,
        ),
    decreases tasks.len(),
{
    let updated = tasks.update(i, task);
    if i == tasks.len() - 1 {
        assert(updated.drop_last() =~= tasks.drop_last());
    } else {
        assert(updated.drop_last() =~= tasks.drop_last().update(i, task));
        total_update(tasks.drop_last(), weight, i, task);
    }
}

/// Where every task weighs the same, the sum is that weight times their
/// number.
pub proof fn total_uniform(tasks: Seq<Task>, weight: spec_fn(Task) -> nat, each: nat)
    requires
        forall|i: int| 0 <= i < tasks.len() ==> weight(#[trigger] tasks[i]) == each,
    ensures
        total(tasks, weight) == each * tasks.len(),
    decreases tasks.len(),
{
    if tasks.len() > 0 {
        total_uniform(tasks.drop_last(), weight, each);
        assert(each * tasks.len() == each * (tasks.len() - 1) + each) by (nonlinear_arith);
    }
}

/// Where no task weighs more than `most`, with one that weighs less, the
/// sum is less than `most` times their number.
pub proof fn total_below(tasks: Seq<Task>, weight: spec_fn(Task) -> nat, most: nat, i: int)
    requires
        forall|j: int| 0 <= j < tasks.len() ==> weight(#[trigger] tasks[j]) <= most,
        0 <= i < tasks.len(),
        weight(tasks[i]) < most,
    ensures
        total(tasks, weight) < most * tasks.len(),
    decreases tasks.len(),
{
    assert(most * tasks.len() == most * (tasks.len() - 1) + most) by (nonlinear_arith);
    if i == tasks.len() - 1 {
        total_at_most(tasks.drop_last(), weight, most);
    } else {
        total_below(tasks.drop_last(), weight, most, i);
    }
}

/// Where no task weighs more than `most`, the sum is at most `most` times
/// their number.
pub proof fn total_at_most(tasks: Seq<Task>, weight: spec_fn(Task) -> nat, most: nat)
    requires
        forall|j: int| 0 <= j < tasks.len() ==> weight(#[trigger] tasks[j]) <= most,
    ensures
        total(tasks, weight) <= most * tasks.len(),
    decreases tasks.len(),
{
    if tasks.len() > 0 {
        total_at_most(tasks.drop_last(), weight, most);
        assert(most * tasks.len() == most * (tasks.len() - 1) + most) by (nonlinear_arith);
    }
}

/// One for a task that has ended, nothing for one that has not.
pub open spec fn ended_weight() -> spec_fn(Task) -> nat {
    |task: Task|
        if task.pending is None {
            1nat
        } else {
            0nat
        }
}

/// How many of `tasks` have ended.
pub open spec fn ended(tasks: Seq<Task>) -> nat {
    total(tasks, ended_weight())
}

/// The texts of status lines, in the same order.
pub open spec fn lines(sent: Seq<StatusLine>) -> Seq<Seq<char>> {
    Seq::new(sent.len(), |k: int| sent[k].message)
}

/// What a run has printed for the status lines it has received.
pub open spec fn heard(sc: Scenario, received: Seq<StatusLine>) -> Seq<Seq<char>> {
    if sc.quiet() {
        Seq::empty()
    } else {
        lines(received)
    }
}

/// What a build prints when there are no more status lines.
pub open spec fn closing(sc: Scenario) -> Seq<Seq<char>> {
    if sc.quiet() {
        Seq::empty()
    } else {
        seq![fpath_hint_spec(sc.dir())]
    }
}

/// How many programs are run for a generation that ends with `outcome`.
pub open spec fn runs_for(outcome: Outcome) -> nat {
    match outcome {
        Outcome::Kept => 0,
        Outcome::Completed => 1,
        Outcome::Failed => 0,
    }
}

/// Whether a generation of the tool at place `i` can end with `outcome`: it
/// completes only if the tool's command can be started, and fails only if
/// it cannot.
pub open spec fn fits(sc: Scenario, i: int, outcome: Outcome) -> bool {
    match outcome {
        Outcome::Kept => true,
        Outcome::Completed => sc.failure(i) is None,
        Outcome::Failed => sc.failure(i) is Some,
    }
}

/// No generation has been started.
pub open spec fn pristine(sys: System) -> bool {
    &&& sys.tasks.len() == 0
    &&& sys.queue.len() == 0
    &&& sys.received.len() == 0
    &&& sys.capacity == 0
}

/// The task at place `i` is the generation of the tool at that place, and
/// what it has yet to do fits how far the generation has come.
pub open spec fn task_shape(sc: Scenario, sys: System, i: int) -> bool {
    let task = sys.tasks[i];
    let tool = sc.tools()[i];
    &&& task.machine.tool == tool
    &&& task.machine.path == sc.path(i)
    &&& task.machine.keep == sc.keep()
    &&& match task.pending {
        Some(RequestView::Probe { path }) => {
            &&& task.machine.stage == Stage::Probing
            &&& path == sc.path(i)
            &&& task.slot is None
            &&& task.runs == 0
        },
        Some(RequestView::Run { program, args }) => {
            &&& task.machine.stage == Stage::Running
            &&& program == shell_program()
            &&& args == shell_args(tool.command)
            &&& task.slot is None
            &&& task.runs == 0
        },
        Some(RequestView::Write { path, bytes }) => {
            &&& task.machine.stage == Stage::Writing
            &&& path == sc.path(i)
            &&& bytes == sc.host.prints(tool.command)
            &&& sc.failure(i) is None
            &&& task.slot is None
            &&& task.runs == 1
        },
        Some(RequestView::Report { outcome, message }) => {
            &&& task.machine.stage == Stage::Finished
            &&& fits(sc, i, outcome)
            &&& message == sc.report(i, outcome)
            &&& task.slot is None
            &&& task.runs == runs_for(outcome)
        },
        Some(RequestView::Abort { message, code }) => {
            &&& task.machine.stage == Stage::Finished
            &&& code == EXIT_FATAL
            &&& task.slot is None
        },
        None => {
            &&& task.machine.stage == Stage::Finished
            &&& task.slot matches Some(k)
            &&& 0 <= k < sys.sent().len()
            &&& sys.sent()[k].task == i
        },
    }
}

/// The status line at place `k` among those sent is that of a task that has
/// ended, which knows it as its own.
pub open spec fn line_shape(sc: Scenario, sys: System, k: int) -> bool {
    let line = sys.sent()[k];
    &&& 0 <= line.task < sys.tasks.len()
    &&& sys.tasks[line.task].pending is None
    &&& sys.tasks[line.task].slot == Some(k)
    &&& sys.tasks[line.task].runs == runs_for(line.outcome)
    &&& fits(sc, line.task, line.outcome)
    &&& line.message == sc.report(line.task, line.outcome)
}

/// One generation per configured tool has been started, and each has sent
/// one status line when it has ended, and none before.
pub open spec fn launched(sc: Scenario, sys: System) -> bool {
    &&& sys.tasks.len() == sc.tools().len()
    &&& sys.capacity == queue_capacity(sc.tools().len())
    &&& ended(sys.tasks) == sys.sent().len()
    &&& forall|i: int| 0 <= i < sys.tasks.len() ==> #[trigger] task_shape(sc, sys, i)
    &&& forall|k: int| 0 <= k < sys.sent().len() ==> #[trigger] line_shape(sc, sys, k)
}

/// What a session that has come to `phase` has found out about the machine.
pub open spec fn reached(sc: Scenario, phase: Phase) -> bool {
    match phase {
        Phase::Removing => sc.resets(),
        Phase::Creating => sc.resets(),
        Phase::Locating => sc.resets() ==> sc.host.create_error is None,
        Phase::Loading => {
            &&& sc.resets() ==> sc.host.create_error is None
            &&& sc.host.located == Some(true)
        },
        Phase::Launching | Phase::Collecting => {
            &&& sc.resets() ==> sc.host.create_error is None
            &&& sc.host.located == Some(true)
            &&& sc.host.config is Some
            &&& sc.command is Build
        },
        Phase::Finished => true,
    }
}

/// What a run that ends with `code` before any generation is started has
/// found and printed: the configuration, or that there is none, or that the
/// completion directory cannot be created.
pub open spec fn ended_early(sc: Scenario, code: int, printed: Seq<Seq<char>>) -> bool {
    ||| {
        &&& code == EXIT_OK
        &&& sc.command is Getconfig
        &&& reached(sc, Phase::Loading)
        &&& sc.host.config is Some
        &&& printed == seq![sc.env.config_path()] + tool_lines_spec(sc.tools())
    }
    ||| {
        &&& code == EXIT_NO_SETTINGS
        &&& reached(sc, Phase::Locating)
        &&& sc.host.located != Some(true) || sc.host.config is None
        &&& printed == sc.complaint() + if sc.command is Getconfig && sc.host.located == Some(
            true,
        ) {
            seq![sc.env.config_path(), no_settings_spec()]
        } else {
            seq![no_settings_spec()]
        }
    }
    ||| {
        &&& code == EXIT_FATAL
        &&& sc.resets()
        &&& sc.host.create_error matches Some(reason)
        &&& printed == sc.complaint() + seq![error_line_spec(reason)]
    }
}

/// A generation has ended the process.
pub open spec fn aborted(sys: System) -> bool {
    sys.exit == Some(EXIT_FATAL as int) && sys.session.phase == Phase::Collecting
}

/// What holds of a run that no generation has ended, by the phase of its
/// session.
pub open spec fn regular(sc: Scenario, sys: System) -> bool {
    &&& sys.exit is Some ==> sys.session.phase == Phase::Finished
    &&& match sys.session.phase {
        Phase::Removing => {
            &&& sys.pending == ActionView::RemoveDir { path: sc.dir() }
            &&& pristine(sys)
            &&& sys.printed.len() == 0
        },
        Phase::Creating => {
            &&& sys.pending == ActionView::CreateDir { path: sc.dir() }
            &&& pristine(sys)
            &&& sys.printed == sc.complaint()
        },
        Phase::Locating => {
            &&& sys.pending == ActionView::Locate { path: sc.env.config_path() }
            &&& pristine(sys)
            &&& sys.printed == sc.complaint()
        },
        Phase::Loading => {
            &&& sys.pending == ActionView::Load { path: sc.env.config_path() }
            &&& pristine(sys)
            &&& sys.printed == if sc.command is Build {
                sc.complaint()
            } else {
                seq![sc.env.config_path()]
            }
        },
        Phase::Launching => {
            &&& sys.pending == ActionView::Launch {
                tools: sc.tools(),
                dir: sc.dir(),
                keep: sc.keep(),
                capacity: queue_capacity(sc.tools().len()),
            }
            &&& pristine(sys)
            &&& sys.printed == sc.complaint()
        },
        Phase::Collecting => {
            &&& sys.pending == ActionView::Receive
            &&& launched(sc, sys)
            &&& sys.printed == sc.complaint() + heard(sc, sys.received)
        },
        Phase::Finished => {
            &&& sys.pending matches ActionView::Exit { code }
            &&& (sys.exit matches Some(status) ==> status == code)
            &&& if code == EXIT_OK && sc.command is Build {
                &&& reached(sc, Phase::Collecting)
                &&& launched(sc, sys)
                &&& sys.all_ended()
                &&& sys.queue.len() == 0
                &&& sys.printed == sc.complaint() + heard(sc, sys.received) + closing(sc)
            } else {
                &&& pristine(sys)
                &&& ended_early(sc, code, sys.printed)
            }
        },
    }
}

/// What holds of every state that a run of `sc` can reach, whatever the
/// tools are called.
pub open spec fn shape(sc: Scenario, sys: System) -> bool {
    &&& sys.session.command == sc.command
    &&& sys.session.dir == sc.dir()
    &&& sys.session.config_path == sc.env.config_path()
    &&& reached(sc, sys.session.phase)
    &&& aborted(sys) || regular(sc, sys)
}

/// Where the tasks and the status lines sent are the same in two states,
/// the generations that are launched in one are launched in the other.
proof fn launched_carries_over(sc: Scenario, sys: System, next: System)
    requires
        launched(sc, sys),
        next.tasks == sys.tasks,
        next.capacity == sys.capacity,
        next.sent() == sys.sent(),
    ensures
        launched(sc, next),
{
    assert forall|i: int| 0 <= i < next.tasks.len() implies #[trigger] task_shape(sc, next, i) by {
        assert(task_shape(sc, sys, i));
    }
    assert forall|k: int| 0 <= k < next.sent().len() implies #[trigger] line_shape(sc, next, k) by {
        assert(line_shape(sc, sys, k));
    }
}

/// A turn of the session keeps a run in shape.
pub proof fn session_turn_keeps_shape(sc: Scenario, sys: System)
    requires
        shape(sc, sys),
        sys.ready(Turn::Session),
    ensures
        shape(sc, sys.session_turn(sc.host)),
{
    let next = sys.session_turn(sc.host);
    match sys.session.phase {
        Phase::Removing => {
            assert(next.printed =~= sc.complaint());
        },
        Phase::Creating => {
            if sc.host.create_error is Some {
                assert(next.printed =~= sc.complaint() + seq![
                    error_line_spec(sc.host.create_error->0),
                ]);
            } else {
                assert(next.printed =~= sc.complaint());
            }
        },
        Phase::Locating => {
            if sc.host.located != Some(true) {
                assert(next.printed =~= sc.complaint() + seq![no_settings_spec()]);
            } else if sc.command is Build {
                assert(next.printed =~= sc.complaint());
            } else {
                assert(next.printed =~= seq![sc.env.config_path()]);
            }
        },
        Phase::Loading => {
            if sc.host.config is Some {
                if sc.command is Build {
                    assert(next.printed =~= sc.complaint());
                } else {
                    assert(next.printed =~= seq![sc.env.config_path()] + tool_lines_spec(
                        sc.tools(),
                    ));
                }
            } else if sc.command is Build {
                assert(next.printed =~= sc.complaint() + seq![no_settings_spec()]);
            } else {
                assert(next.printed =~= sc.complaint() + seq![
                    sc.env.config_path(),
                    no_settings_spec(),
                ]);
            }
        },
        Phase::Launching => {
            total_uniform(next.tasks, ended_weight(), 0);
            assert(next.printed =~= sc.complaint() + heard(sc, next.received));
        },
        Phase::Collecting => {
            assert(next.sent() =~= sys.sent());
            launched_carries_over(sc, sys, next);
            if sys.queue.len() > 0 {
                assert(next.printed =~= sc.complaint() + heard(sc, next.received));
            } else {
                assert(next.printed =~= sc.complaint() + heard(sc, next.received) + closing(sc));
            }
        },
        Phase::Finished => {
            if sys.pending == (ActionView::Exit { code: EXIT_OK as int }) && sc.command is Build {
                launched_carries_over(sc, sys, next);
            }
        },
    }
}

/// A turn of a task keeps a run in shape.
pub proof fn task_turn_keeps_shape(sc: Scenario, sys: System, i: int)
    requires
        shape(sc, sys),
        sys.ready(Turn::Task(i)),
    ensures
        shape(sc, sys.task_turn(sc.host, i)),
{
    let next = sys.task_turn(sc.host, i);
    let task = sys.tasks[i];
    assert(task_shape(sc, sys, i));
    match task.pending {
        Some(RequestView::Abort { .. }) => {},
        Some(RequestView::Report { .. }) => {
            total_update(sys.tasks, ended_weight(), i, next.tasks[i]);
            assert forall|j: int| 0 <= j < next.tasks.len() implies #[trigger] task_shape(
                sc,
                next,
                j,
            ) by {
                assert(task_shape(sc, sys, j));
            }
            assert forall|k: int| 0 <= k < next.sent().len() implies #[trigger] line_shape(
                sc,
                next,
                k,
            ) by {
                if k < sys.sent().len() {
                    assert(line_shape(sc, sys, k));
                }
            }
        },
        Some(_) => {
            total_update(sys.tasks, ended_weight(), i, next.tasks[i]);
            assert forall|j: int| 0 <= j < next.tasks.len() implies #[trigger] task_shape(
                sc,
                next,
                j,
            ) by {
                assert(task_shape(sc, sys, j));
            }
            assert forall|k: int| 0 <= k < next.sent().len() implies #[trigger] line_shape(
                sc,
                next,
                k,
            ) by {
                assert(line_shape(sc, sys, k));
            }
        },
        None => {},
    }
}

/// Every turn keeps a run in shape.
pub proof fn advance_keeps_shape(sc: Scenario, sys: System, turn: Turn)
    requires
        shape(sc, sys),
    ensures
        shape(sc, sys.advance(sc.host, turn)),
{
    if sys.ready(turn) {
        match turn {
            Turn::Session => session_turn_keeps_shape(sc, sys),
            Turn::Task(i) => task_turn_keeps_shape(sc, sys, i),
        }
    }
}

/// Every state that a run can reach is in shape.
pub proof fn run_in_shape(sc: Scenario, turns: Seq<Turn>)
    ensures
        shape(sc, sc.after(turns)),
    decreases turns.len(),
{
    if turns.len() > 0 {
        run_in_shape(sc, turns.drop_last());
        advance_keeps_shape(sc, sc.after(turns.drop_last()), turns.last());
    }
}

/// In one directory, tools with different names have different completion
/// files.
pub proof fn compfile_paths_differ(dir: Seq<char>, name: Seq<char>, other: Seq<char>)
    requires
        name != other,
    ensures
        compfile_path_spec(dir, name) != compfile_path_spec(dir, other),
{
    let prefix = join_spec(dir, Seq::empty());
    let path = compfile_path_spec(dir, name);
    let rival = compfile_path_spec(dir, other);
    assert(path =~= prefix + seq!['_'] + name);
    if path == rival {
        assert forall|k: int| 0 <= k < name.len() implies name[k] == other[k] by {
            assert(name[k] == path[prefix.len() + 1 + k]);
        }
        assert(name =~= other);
    }
}

/// A completion file lies in the directory it is written to.
pub proof fn compfile_path_inside(dir: Seq<char>, name: Seq<char>)
    ensures
        inside(dir, compfile_path_spec(dir, name)),
{
    let prefix = join_spec(dir, Seq::empty());
    let path = compfile_path_spec(dir, name);
    assert(path.subrange(0, prefix.len() as int) =~= prefix);
}

/// Whether `files` and `other` agree at `path`: both hold a file there,
/// with the same contents, or neither does.
pub open spec fn same_at(files: Files, other: Files, path: Seq<char>) -> bool {
    &&& files.dom().contains(path) == other.dom().contains(path)
    &&& files.dom().contains(path) ==> files[path] == other[path]
}

/// The completion file of the tool at place `i` holds what it holds in the
/// end.
pub open spec fn settled(sc: Scenario, sys: System, i: int) -> bool {
    &&& sys.files.dom().contains(sc.path(i))
    &&& sys.files[sc.path(i)] == sc.contents(i)
}

/// The completion file of the tool at place `i` is as its generation leaves
/// it: as it was when the generations were started, where the tool's
/// command cannot be started, and else holding what it holds in the end.
pub open spec fn rested(sc: Scenario, sys: System, i: int) -> bool {
    if sc.outcome(i) == Outcome::Failed {
        same_at(sys.files, sc.launch_files(), sc.path(i))
    } else {
        settled(sc, sys, i)
    }
}

/// The completion file of the tool at place `i` is as far as its generation
/// is: as it was when the generations were started, until it is written or
/// found to be kept, and as its generation leaves it from then on.
pub open spec fn task_files(sc: Scenario, sys: System, i: int) -> bool {
    let task = sys.tasks[i];
    match task.pending {
        Some(RequestView::Probe { .. }) => same_at(sys.files, sc.launch_files(), sc.path(i)),
        Some(RequestView::Run { .. }) => {
            &&& same_at(sys.files, sc.launch_files(), sc.path(i))
            &&& !sc.kept(i)
        },
        Some(RequestView::Write { .. }) => {
            &&& same_at(sys.files, sc.launch_files(), sc.path(i))
            &&& !sc.kept(i)
        },
        Some(RequestView::Report { outcome, .. }) => {
            &&& rested(sc, sys, i)
            &&& outcome == sc.outcome(i)
        },
        Some(RequestView::Abort { .. }) => true,
        None => {
            &&& rested(sc, sys, i)
            &&& task.slot matches Some(k) ==> sys.sent()[k].outcome == sc.outcome(i)
        },
    }
}

/// Whether `path` is the completion file of none of the tasks.
pub open spec fn foreign(sc: Scenario, sys: System, path: Seq<char>) -> bool {
    forall|i: int| 0 <= i < sys.tasks.len() ==> path != #[trigger] sc.path(i)
}

/// What holds of the files in every state that a run of `sc` can reach,
/// where no two tools share a name.
pub open spec fn files_in_order(sc: Scenario, sys: System) -> bool {
    ||| aborted(sys)
    ||| if sys.session.phase == Phase::Removing {
        sys.files == sc.files
    } else {
        &&& forall|i: int| 0 <= i < sys.tasks.len() ==> #[trigger] task_files(sc, sys, i)
        &&& forall|path: Seq<char>| #[trigger]
            foreign(sc, sys, path) ==> same_at(sys.files, sc.launch_files(), path)
    }
}

/// A turn of the session keeps the files in order.
pub proof fn session_turn_keeps_files(sc: Scenario, sys: System)
    requires
        shape(sc, sys),
        files_in_order(sc, sys),
        sys.ready(Turn::Session),
    ensures
        files_in_order(sc, sys.session_turn(sc.host)),
{
    let next = sys.session_turn(sc.host);
    if sys.session.phase == Phase::Launching {
        assert forall|i: int| 0 <= i < next.tasks.len() implies #[trigger] task_files(
            sc,
            next,
            i,
        ) by {
            assert(foreign(sc, sys, sc.path(i)));
        }
        assert forall|path: Seq<char>| #[trigger] foreign(sc, next, path) implies same_at(
            next.files,
            sc.launch_files(),
            path,
        ) by {
            assert(foreign(sc, sys, path));
        }
    } else if sys.session.phase != Phase::Removing {
        assert(next.sent() =~= sys.sent());
        assert forall|i: int| 0 <= i < next.tasks.len() implies #[trigger] task_files(
            sc,
            next,
            i,
        ) by {
            assert(task_files(sc, sys, i));
        }
        assert forall|path: Seq<char>| #[trigger] foreign(sc, next, path) implies same_at(
            next.files,
            sc.launch_files(),
            path,
        ) by {
            assert(foreign(sc, sys, path));
        }
    }
}

/// A turn of a task keeps the files in order.
pub proof fn task_turn_keeps_files(sc: Scenario, sys: System, i: int)
    requires
        names_unique(sc.tools()),
        shape(sc, sys),
        files_in_order(sc, sys),
        sys.ready(Turn::Task(i)),
    ensures
        files_in_order(sc, sys.task_turn(sc.host, i)),
{
    let next = sys.task_turn(sc.host, i);
    let task = sys.tasks[i];
    assert(task_shape(sc, sys, i));
    if !aborted(next) {
        assert forall|j: int| 0 <= j < next.tasks.len() implies #[trigger] task_files(
            sc,
            next,
            j,
        ) by {
            assert(task_files(sc, sys, j));
            assert(task_shape(sc, sys, j));
            if j != i {
                compfile_paths_differ(sc.dir(), sc.tools()[i].name, sc.tools()[j].name);
            }
        }
        assert forall|path: Seq<char>| #[trigger] foreign(sc, next, path) implies same_at(
            next.files,
            sc.launch_files(),
            path,
        ) by {
            assert(foreign(sc, sys, path));
        }
    }
}

/// Every turn keeps the files in order.
pub proof fn advance_keeps_files(sc: Scenario, sys: System, turn: Turn)
    requires
        names_unique(sc.tools()),
        shape(sc, sys),
        files_in_order(sc, sys),
    ensures
        files_in_order(sc, sys.advance(sc.host, turn)),
{
    if sys.ready(turn) {
        match turn {
            Turn::Session => session_turn_keeps_files(sc, sys),
            Turn::Task(i) => task_turn_keeps_files(sc, sys, i),
        }
    }
}

/// In every state that a run can reach, the files are in order, where no
/// two tools share a name.
pub proof fn run_keeps_files(sc: Scenario, turns: Seq<Turn>)
    requires
        names_unique(sc.tools()),
    ensures
        shape(sc, sc.after(turns)),
        files_in_order(sc, sc.after(turns)),
    decreases turns.len(),
{
    run_in_shape(sc, turns);
    if turns.len() > 0 {
        run_keeps_files(sc, turns.drop_last());
        advance_keeps_files(sc, sc.after(turns.drop_last()), turns.last());
    }
}

} // verus!
