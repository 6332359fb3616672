//! The per-process executor: the command builder that turns a task and a
//! task-call into a full invocation, and the lifecycle of the spawned
//! process.
//!
//! The executor owns one external process's life: `Idle` until a spawn is
//! attempted, `Running` while the process lives, and terminally
//! `Completed` with its exit verdict or `Failed` when the spawn itself
//! failed. The caller performs the actual spawning and waiting and feeds
//! each observed outcome into the corresponding transition here; the
//! transitions' contracts pin down what each observation means for the
//! state, and `wait`/`try_wait` hand back every captured output line,
//! tagged for the sink, before the terminal state is reported.

use vstd::prelude::*;
use vstd::string::StringExecFns;
use crate::errors::{ExecutionError, ProjectError};
use crate::schema::task::Task;
use crate::schema::task_call::TaskCall;
use crate::util::{clone_opt_string_vec, clone_string_vec, MessageSeverity};

verus! {

/// The execution string of a command and its arguments: the space-joined
/// rendering used for log correlation, never re-parsed.
pub open spec fn execution_string_of(command: Seq<char>, argv: Seq<Seq<char>>) -> Seq<char>
    decreases argv.len(),
{
    if argv.len() == 0 {
        command
    } else {
        execution_string_of(command, argv.drop_last()) + " "@ + argv.last()
    }
}

/// The sink rendering of one output line of a child process.
pub open spec fn child_line_of(execution_string: Seq<char>, line: Seq<char>) -> Seq<char> {
    execution_string + " -> "@ + line
}

/// One tagged message bound for the sink.
pub struct SinkMessage {
    pub severity: MessageSeverity,
    pub text: String,
}

/// The lifecycle of one external process. `Completed` and `Failed` are
/// terminal; `Failed` means no process was ever created.
#[derive(Clone, Copy, PartialEq, Eq, Structural, Debug)]
pub enum ExecutorState {
    Idle,
    Running,
    Completed { success: bool },
    Failed,
}

/// The fully built invocation of a task: the executable, every argument
/// in order, and the working-directory override to resolve at spawn time.
pub struct Invocation {
    pub program: String,
    pub argv: Vec<String>,
    pub workdir_override: Option<String>,
}

/// Renders one output line of a child process for the sink, prefixed by
/// the execution string it belongs to.
pub fn format_child_line(execution_string: &String, line: &String) -> (r: String)
    ensures
        r@ == child_line_of(execution_string@, line@),
{
    let mut r = execution_string.clone();
    r.append(" -> ");
    r.append(line.as_str());
    r
}

/// The sink's abstract picture of a message list: severity and text of
/// each message, in order.
pub open spec fn sink_view(msgs: Seq<SinkMessage>) -> Seq<(MessageSeverity, Seq<char>)> {
    msgs.map_values(|m: SinkMessage| (m.severity, m.text@))
}

/// One stream's lines tagged for the sink, in original order.
pub open spec fn tagged_stream(
    execution_string: Seq<char>,
    severity: MessageSeverity,
    lines: Seq<Seq<char>>,
) -> Seq<(MessageSeverity, Seq<char>)> {
    lines.map_values(|line: Seq<char>| (severity, child_line_of(execution_string, line)))
}

/// Everything one process delivers to the sink once it is finished: all
/// its standard-output lines, then all its standard-error lines, each
/// stream in production order and every line tagged with its channel.
pub open spec fn output_delivery(
    execution_string: Seq<char>,
    out_lines: Seq<Seq<char>>,
    err_lines: Seq<Seq<char>>,
) -> Seq<(MessageSeverity, Seq<char>)> {
    tagged_stream(execution_string, MessageSeverity::ChildInfo, out_lines) + tagged_stream(
        execution_string,
        MessageSeverity::ChildError,
        err_lines,
    )
}

/// A finished process with `n` standard-output lines and `m`
/// standard-error lines delivers exactly `n + m` messages to the sink,
/// each stream's own lines in their original order and tagged with their
/// channel.
pub proof fn lemma_output_delivery_complete(
    execution_string: Seq<char>,
    out_lines: Seq<Seq<char>>,
    err_lines: Seq<Seq<char>>,
)
    ensures
        output_delivery(execution_string, out_lines, err_lines).len() == out_lines.len()
            + err_lines.len(),
        forall|i: int| #![trigger out_lines[i]] 0 <= i < out_lines.len() ==> output_delivery(
            execution_string,
            out_lines,
            err_lines,
        )[i] == (MessageSeverity::ChildInfo, child_line_of(execution_string, out_lines[i])),
        forall|i: int| #![trigger err_lines[i]] 0 <= i < err_lines.len() ==> output_delivery(
            execution_string,
            out_lines,
            err_lines,
        )[out_lines.len() + i] == (
            MessageSeverity::ChildError,
            child_line_of(execution_string, err_lines[i]),
        ),
{
    let d = output_delivery(execution_string, out_lines, err_lines);
    assert forall|i: int| 0 <= i < out_lines.len() implies #[trigger] out_lines[i] == out_lines[i]
        && d[i] == (MessageSeverity::ChildInfo, child_line_of(execution_string, out_lines[i])) by {
        assert(d[i] == tagged_stream(
            execution_string,
            MessageSeverity::ChildInfo,
            out_lines,
        )[i]);
    }
    assert forall|i: int| 0 <= i < err_lines.len() implies #[trigger] err_lines[i] == err_lines[i]
        && d[out_lines.len() + i] == (
        MessageSeverity::ChildError,
        child_line_of(execution_string, err_lines[i]),
    ) by {
        assert(d[out_lines.len() + i] == tagged_stream(
            execution_string,
            MessageSeverity::ChildError,
            err_lines,
        )[i]);
    }
}

/// Tags each captured line of both output streams for the sink: first the
/// standard-output lines, then the standard-error lines, each stream in
/// its original order.
fn tag_output(execution_string: &String, out_lines: &Vec<String>, err_lines: &Vec<String>) -> (r:
    Vec<SinkMessage>)
    ensures
        sink_view(r@) == output_delivery(
            execution_string@,
            out_lines.deep_view(),
            err_lines.deep_view(),
        ),
{
    let mut r = tag_stream(execution_string, MessageSeverity::ChildInfo, out_lines);
    let mut errs = tag_stream(execution_string, MessageSeverity::ChildError, err_lines);
    r.append(&mut errs);
    proof {
        assert(sink_view(r@) =~= output_delivery(
            execution_string@,
            out_lines.deep_view(),
            err_lines.deep_view(),
        ));
    }
    r
}

/// Tags every line of one output stream for the sink, in original order.
fn tag_stream(execution_string: &String, severity: MessageSeverity, lines: &Vec<String>) -> (r:
    Vec<SinkMessage>)
    ensures
        sink_view(r@) == tagged_stream(execution_string@, severity, lines.deep_view()),
{
    let mut r: Vec<SinkMessage> = Vec::new();
    let n = lines.len();
    for i in 0..n
        invariant
            n == lines@.len(),
            r@.len() == i,
            forall|j: int| 0 <= j < i ==> r@[j].severity == severity && r@[j].text@
                == child_line_of(execution_string@, lines@[j]@),
    {
        let text = format_child_line(execution_string, &lines[i]);
        r.push(SinkMessage { severity, text });
    }
    proof {
        assert(sink_view(r@) =~= tagged_stream(execution_string@, severity, lines.deep_view()));
    }
    r
}

/// The executor of a single task: the bound task, the built invocation,
/// its execution string, and the process lifecycle state.
pub struct TaskExecutor {
    pub task: Task,
    pub execution_string: String,
    pub invocation: Invocation,
    pub state: ExecutorState,
}

impl TaskExecutor {
    /// The current lifecycle state.
    pub open spec fn spec_state(self) -> ExecutorState {
        self.state
    }

    /// Everything but the lifecycle state, for stating that a transition
    /// touches nothing else.
    pub open spec fn same_binding(self, other: TaskExecutor) -> bool {
        self.task == other.task && self.execution_string == other.execution_string
            && self.invocation == other.invocation
    }

    /// The current lifecycle state, observably.
    pub fn current_state(&self) -> (r: ExecutorState)
        ensures
            r == self.spec_state(),
    {
        self.state
    }

    /// Builds the executor for one task-call: validates that the call
    /// supplies exactly the arity the task declares, then forms the
    /// invocation — the command, the fixed arguments in order, the call
    /// arguments in order — and its execution string. No process is
    /// spawned here.
    pub fn new(task: &Task, taskcall: &TaskCall, set_working_dir: &Option<String>) -> (r: Result<
        TaskExecutor,
        ProjectError,
    >)
        ensures
            r is Ok <==> taskcall.call_args().len() == task.arity(),
            r matches Ok(ex) ==> {
                &&& ex.spec_state() == ExecutorState::Idle
                &&& ex.task.command@ == task.command@
                &&& ex.task.fixed_args() == task.fixed_args()
                &&& ex.task.required_call_args == task.required_call_args
                &&& ex.invocation.program@ == task.command@
                &&& ex.invocation.argv.deep_view() == task.fixed_args() + taskcall.call_args()
                &&& ex.execution_string@ == execution_string_of(
                    task.command@,
                    task.fixed_args() + taskcall.call_args(),
                )
                &&& (ex.invocation.workdir_override is Some <==> set_working_dir is Some)
                &&& (ex.invocation.workdir_override matches Some(w) ==> set_working_dir matches Some(
                    sw,
                ) && w@ == sw@)
            },
            r matches Err(e) ==> e matches ProjectError::ArityMismatch { task: t, expected, actual }
                && t@ == task.command@ && expected as nat == task.arity() && actual as nat
                == taskcall.call_args().len(),
    {
        let actual: usize = match &taskcall.args {
            Some(a) => a.len(),
            None => 0,
        };
        let expected: u8 = match task.required_call_args {
            Some(n) => n,
            None => 0,
        };
        if actual != expected as usize {
            return Err(
                ProjectError::ArityMismatch { task: task.command.clone(), expected, actual },
            );
        }

        let mut argv: Vec<String> = match &task.args {
            Some(a) => clone_string_vec(a),
            None => Vec::new(),
        };
        let mut call_args: Vec<String> = match &taskcall.args {
            Some(a) => clone_string_vec(a),
            None => Vec::new(),
        };
        proof {
            assert(argv.deep_view() =~= task.fixed_args());
            assert(call_args.deep_view() =~= taskcall.call_args());
        }
        let ghost fixed_len = argv@.len();
        argv.append(&mut call_args);
        proof {
            assert(argv.deep_view() =~= task.fixed_args() + taskcall.call_args());
        }

        let ghost all = argv.deep_view();
        let mut execution_string = task.command.clone();
        let n = argv.len();
        for i in 0..n
            invariant
                n == argv@.len(),
                all == argv.deep_view(),
                execution_string@ == execution_string_of(task.command@, all.take(i as int)),
        {
            execution_string.append(" ");
            execution_string.append(argv[i].as_str());
            proof {
                assert(all.take(i + 1).drop_last() =~= all.take(i as int));
                assert(all.take(i + 1).last() == all[i as int]);
            }
        }
        proof {
            assert(all.take(n as int) =~= all);
        }

        let task_copy = Task {
            command: task.command.clone(),
            args: clone_opt_string_vec(&task.args),
            required_call_args: task.required_call_args,
        };
        proof {
            assert(task_copy.fixed_args() =~= task.fixed_args());
        }
        let workdir_override = match set_working_dir {
            Some(d) => Some(d.clone()),
            None => None,
        };
        Ok(
            TaskExecutor {
                task: task_copy,
                execution_string,
                invocation: Invocation { program: task.command.clone(), argv, workdir_override },
                state: ExecutorState::Idle,
            },
        )
    }

    /// Records the outcome of the spawn attempt: the executor becomes
    /// `Running` when the operating system created the process, and
    /// terminally `Failed` — with a spawn error naming the command —
    /// when it did not.
    pub fn execute(&mut self, spawned: bool) -> (r: Result<(), ExecutionError>)
        requires
            old(self).spec_state() == ExecutorState::Idle,
        ensures
            final(self).same_binding(*old(self)),
            spawned ==> final(self).spec_state() == ExecutorState::Running && r is Ok,
            !spawned ==> ({
                &&& final(self).spec_state() == ExecutorState::Failed
                &&& r matches Err(e) && e matches ExecutionError::SpawnError { command }
                    && command@ == old(self).task.command@
            }),
    {
        if spawned {
            self.state = ExecutorState::Running;
            Ok(())
        } else {
            self.state = ExecutorState::Failed;
            Err(ExecutionError::SpawnError { command: self.task.command.clone() })
        }
    }

    /// Records the observed termination of the running process, handing
    /// back every captured output line tagged for the sink — all of the
    /// standard-output lines and all of the standard-error lines, each
    /// stream in its original order — before the terminal state is
    /// reported.
    pub fn wait(&mut self, exit_success: bool, out_lines: &Vec<String>, err_lines: &Vec<String>) -> (r:
        Vec<SinkMessage>)
        requires
            old(self).spec_state() == ExecutorState::Running,
        ensures
            final(self).same_binding(*old(self)),
            final(self).spec_state() == (ExecutorState::Completed { success: exit_success }),
            sink_view(r@) == output_delivery(
                old(self).execution_string@,
                out_lines.deep_view(),
                err_lines.deep_view(),
            ),
    {
        self.state = ExecutorState::Completed { success: exit_success };
        tag_output(&self.execution_string, out_lines, err_lines)
    }

    /// Records one poll of the running process: with no termination
    /// observed yet nothing changes and nothing is delivered; the instant
    /// a termination is observed, this behaves exactly like [`Self::wait`],
    /// so an observer of the terminal state holds the complete output.
    pub fn try_wait(
        &mut self,
        status: Option<bool>,
        out_lines: &Vec<String>,
        err_lines: &Vec<String>,
    ) -> (r: Vec<SinkMessage>)
        requires
            old(self).spec_state() == ExecutorState::Running,
        ensures
            final(self).same_binding(*old(self)),
            status is None ==> *final(self) == *old(self) && r@.len() == 0,
            status matches Some(success) ==> {
                &&& final(self).spec_state() == (ExecutorState::Completed { success })
                &&& sink_view(r@) == output_delivery(
                    old(self).execution_string@,
                    out_lines.deep_view(),
                    err_lines.deep_view(),
                )
            },
    {
        match status {
            None => Vec::new(),
            Some(success) => self.wait(success, out_lines, err_lines),
        }
    }
}

} // verus!
