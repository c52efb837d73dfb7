//! The task list of the embedded web view: the commands the page sends and
//! how they change the list.

use vstd::prelude::*;
use crate::text::concat3;

verus! {

/// One task.
#[derive(Clone, Debug)]
pub struct Task {
    pub name: String,
    pub done: bool,
}

/// A command sent by the page.
#[derive(Clone, Debug)]
pub enum Cmd {
    Init,
    Log { text: String },
    AddTask { name: String },
    MarkTask { index: usize, done: bool },
    ClearDoneTasks,
}

/// The tasks that are not done, in order.
pub open spec fn pending_tasks(s: Seq<Task>) -> Seq<Task>
    decreases s.len(),
{
    if s.len() == 0 {
        Seq::empty()
    } else {
        let r = pending_tasks(s.drop_last());
        if s.last().done {
            r
        } else {
            r.push(s.last())
        }
    }
}

/// The command can be applied: a task to mark exists.
pub open spec fn cmd_applies(tasks: Seq<Task>, cmd: Cmd) -> bool {
    match cmd {
        Cmd::MarkTask { index, .. } => index < tasks.len(),
        _ => true,
    }
}

/// Applies a command to the task list. Returns the text to log, for `Log`.
pub fn apply_cmd(tasks: &mut Vec<Task>, cmd: Cmd) -> (log: Option<String>)
    requires
        cmd_applies(old(tasks)@, cmd),
    ensures
        match cmd {
            Cmd::Init => final(tasks)@ == old(tasks)@ && log is None,
            Cmd::Log { text } => final(tasks)@ == old(tasks)@ && log == Some(text),
            Cmd::AddTask { name } => final(tasks)@ == old(tasks)@.push(Task { name, done: false })
                && log is None,
            Cmd::MarkTask { index, done } => final(tasks)@ == old(tasks)@.update(
                index as int,
                Task { name: old(tasks)@[index as int].name, done },
            ) && log is None,
            Cmd::ClearDoneTasks => final(tasks)@ == pending_tasks(old(tasks)@) && log is None,
        },
{
    match cmd {
        Cmd::Init => None,
        Cmd::Log { text } => Some(text),
        Cmd::AddTask { name } => {
            tasks.push(Task { name, done: false });
            None
        },
        Cmd::MarkTask { index, done } => {
            tasks[index].done = done;
            None
        },
        Cmd::ClearDoneTasks => {
            let ghost before = tasks@;
            let mut kept: Vec<Task> = Vec::new();
            let mut rest: Vec<Task> = Vec::new();
            std::mem::swap(&mut rest, tasks);
            let mut i: usize = 0;
            let n = rest.len();
            assert(before.skip(0) =~= before);
            while i < n
                invariant
                    n == before.len(),
                    i <= n,
                    rest@ == before.skip(i as int),
                    kept@ == pending_tasks(before.take(i as int)),
                decreases n - i,
            {
                let t = rest.remove(0);
                assert(t == before[i as int]);
                assert(before.take(i + 1).drop_last() =~= before.take(i as int));
                assert(rest@ =~= before.skip(i + 1));
                if !t.done {
                    kept.push(t);
                }
                i = i + 1;
            }
            assert(before.take(n as int) =~= before);
            *tasks = kept;
            None
        },
    }
}

/// Law: once the done tasks are cleared, no task is done.
pub proof fn law_cleared_tasks_pending(s: Seq<Task>)
    ensures
        forall|i: int| 0 <= i < pending_tasks(s).len() ==> !pending_tasks(s)[i].done,
    decreases s.len(),
{
    if s.len() > 0 {
        law_cleared_tasks_pending(s.drop_last());
        let r = pending_tasks(s.drop_last());
        if !s.last().done {
            assert forall|i: int| 0 <= i < r.push(s.last()).len() implies !r.push(s.last())[i].done by {
                if i < r.len() {
                    assert(r.push(s.last())[i] == r[i]);
                }
            }
        }
    }
}

/// Law: clearing the done tasks keeps every task that is not done.
pub proof fn law_cleared_tasks_keep_pending(s: Seq<Task>, i: int)
    requires
        0 <= i < s.len(),
        !s[i].done,
    ensures
        pending_tasks(s).contains(s[i]),
    decreases s.len(),
{
    if i < s.len() - 1 {
        law_cleared_tasks_keep_pending(s.drop_last(), i);
        assert(s.drop_last()[i] == s[i]);
        let r = pending_tasks(s.drop_last());
        let k = choose|k: int| 0 <= k < r.len() && r[k] == s[i];
        if !s.last().done {
            assert(r.push(s.last())[k] == s[i]);
        }
    } else {
        let r = pending_tasks(s.drop_last());
        assert(r.push(s.last())[r.len() as int] == s[i]);
    }
}

/// A style sheet embedded in a page.
pub fn inline_style(s: &str) -> (r: String)
    ensures
        r@ == "<style type=\"text/css\">"@ + s@ + "</style>"@,
{
    concat3("<style type=\"text/css\">", s, "</style>")
}

/// A script embedded in a page.
pub fn inline_script(s: &str) -> (r: String)
    ensures
        r@ == "<script type=\"text/javascript\">"@ + s@ + "</script>"@,
{
    concat3("<script type=\"text/javascript\">", s, "</script>")
}

} // verus!
