//! Processes and threads as the system calls see them, and the ready queue.

use vstd::prelude::*;

verus! {

/// A process.
#[derive(Debug, Clone, Copy)]
pub struct Process {
    /// Process number.
    pub tgid: usize,
    /// Process group.
    pub pgid: usize,
    /// Session.
    pub sid: usize,
    pub uid: usize,
    pub euid: usize,
    pub suid: usize,
    pub nice: i32,
    /// Some thread can still receive signals; otherwise it is a zombie.
    pub alive: bool,
    /// Its first thread still runs.
    pub leader: bool,
    /// Stopped by a signal.
    pub stopped: bool,
    /// Has started a program since it was created.
    pub did_exec: bool,
    /// Process number of the parent.
    pub parent: usize,
}

/// No two processes have the same number.
pub open spec fn distinct_processes(procs: Seq<Process>) -> bool {
    forall|i: int, j: int|
        0 <= i < procs.len() && 0 <= j < procs.len() && #[trigger] procs[i].tgid
            == #[trigger] procs[j].tgid ==> i == j
}

/// Process `tgid` is at index `i`.
pub open spec fn process_at(procs: Seq<Process>, tgid: usize, i: int) -> bool {
    0 <= i < procs.len() && procs[i].tgid == tgid
}

/// Some process has number `tgid`.
pub open spec fn process_exists(procs: Seq<Process>, tgid: usize) -> bool {
    exists|i: int| process_at(procs, tgid, i)
}

/// The index of a process.
pub fn find_process(procs: &Vec<Process>, tgid: usize) -> (r: Option<usize>)
    ensures
        match r {
            Some(i) => process_at(procs@, tgid, i as int) && forall|j: int|
                0 <= j < i ==> procs@[j].tgid != tgid,
            None => !process_exists(procs@, tgid),
        },
{
    let mut i: usize = 0;
    while i < procs.len()
        invariant
            i <= procs@.len(),
            forall|j: int| 0 <= j < i ==> procs@[j].tgid != tgid,
        decreases procs@.len() - i,
    {
        if procs[i].tgid == tgid {
            return Some(i);
        }
        i = i + 1;
    }
    None
}

/// State of a task in the scheduler.
#[derive(Debug, Clone, Copy, PartialEq, Eq, Structural)]
pub enum TaskStatus {
    Ready,
    Running,
    Exited,
}

/// A schedulable task: its state, its exit code, its parent and its children.
#[derive(Debug)]
pub struct TaskEntry {
    pub status: TaskStatus,
    pub exit_code: i32,
    pub parent: Option<usize>,
    pub children: Vec<usize>,
}

/// All tasks, the queue of those that are ready, and the one that runs. A task
/// is named by its index; task 0 is the initial process.
#[derive(Debug)]
pub struct Scheduler {
    pub tasks: Vec<TaskEntry>,
    pub ready: Vec<usize>,
    pub current: Option<usize>,
}

impl Scheduler {
    /// There is an initial process, and every name is the index of a task.
    pub open spec fn wf(&self) -> bool {
        &&& self.tasks@.len() > 0
        &&& self.current matches Some(c) ==> c < self.tasks@.len()
        &&& forall|i: int| 0 <= i < self.ready@.len() ==> #[trigger] self.ready@[i]
            < self.tasks@.len()
        &&& forall|t: int, i: int|
            0 <= t < self.tasks@.len() && 0 <= i < self.tasks@[t].children@.len()
                ==> #[trigger] self.tasks@[t].children@[i] < self.tasks@.len()
    }
}

/// Queues the initial process.
pub fn add_initproc(sched: &mut Scheduler)
    requires
        old(sched).wf(),
    ensures
        final(sched).wf(),
        final(sched).ready@ == old(sched).ready@.push(0),
        final(sched).tasks == old(sched).tasks,
        final(sched).current == old(sched).current,
{
    sched.ready.push(0);
}

/// Puts the running task back at the end of the ready queue. Nothing runs
/// afterwards until the next task is picked.
pub fn suspend_current_and_run_next(sched: &mut Scheduler)
    requires
        old(sched).wf(),
        old(sched).current is Some,
    ensures
        final(sched).wf(),
        final(sched).current is None,
        final(sched).ready@ == old(sched).ready@.push(old(sched).current->0),
        final(sched).tasks@.len() == old(sched).tasks@.len(),
        final(sched).tasks@[old(sched).current->0 as int].status == TaskStatus::Ready,
        final(sched).tasks@[old(sched).current->0 as int].exit_code
            == old(sched).tasks@[old(sched).current->0 as int].exit_code,
        final(sched).tasks@[old(sched).current->0 as int].parent
            == old(sched).tasks@[old(sched).current->0 as int].parent,
        final(sched).tasks@[old(sched).current->0 as int].children
            == old(sched).tasks@[old(sched).current->0 as int].children,
        forall|t: int|
            0 <= t < old(sched).tasks@.len() && t != old(sched).current->0
                ==> final(sched).tasks@[t] == old(sched).tasks@[t],
{
    match sched.current {
        Some(c) => {
            sched.tasks[c].status = TaskStatus::Ready;
            sched.current = None;
            sched.ready.push(c);
        },
        None => {},
    }
}

/// Whether the end of the running task goes from `before` to `after`.
pub open spec fn task_exited(before: &Scheduler, after: &Scheduler, exit_code: i32) -> bool {
    ({
        let c = before.current->0 as int;
        let orphans = before.tasks@[c].children@;
        &&& after.tasks@[c].status == TaskStatus::Exited
        &&& after.tasks@[c].exit_code == exit_code
        &&& after.tasks@[c].parent == before.tasks@[c].parent
        &&& after.tasks@[c].children@ == Seq::<usize>::empty()
        &&& after.tasks@[0].children@ == before.tasks@[0].children@ + orphans
        &&& forall|t: int|
            0 <= t < before.tasks@.len() && t != c ==> {
                &&& (#[trigger] after.tasks@[t]).status == before.tasks@[t].status
                &&& after.tasks@[t].exit_code == before.tasks@[t].exit_code
                &&& t != 0 ==> after.tasks@[t].children == before.tasks@[t].children
                &&& after.tasks@[t].parent == (if orphans.contains(t as usize) {
                    Some(0usize)
                } else {
                    before.tasks@[t].parent
                })
            }
    })
}

/// Ends the running task. Its children become children of the initial
/// process, after those that process already has.
pub fn exit_current_and_run_next(sched: &mut Scheduler, exit_code: i32)
    requires
        old(sched).wf(),
        old(sched).current matches Some(c) && c != 0 && !old(sched).tasks@[c as int].children@.contains(0) && !old(sched).tasks@[c as int].children@.contains(
            c,
        ),
    ensures
        final(sched).wf(),
        final(sched).current is None,
        final(sched).ready == old(sched).ready,
        final(sched).tasks@.len() == old(sched).tasks@.len(),
        task_exited(old(sched), final(sched), exit_code),
{
    let c: usize = match sched.current {
        Some(c) => c,
        None => {
            return ;
        },
    };
    sched.current = None;
    sched.tasks[c].status = TaskStatus::Exited;
    sched.tasks[c].exit_code = exit_code;
    let ghost orphans = sched.tasks@[c as int].children@;
    let ghost mid = sched.tasks@;
    let n: usize = sched.tasks.len();
    let mut i: usize = 0;
    while i < sched.tasks[c].children.len()
        invariant
            0 < c < sched.tasks@.len(),
            n == mid.len(),
            i <= orphans.len(),
            sched.current is None,
            sched.ready == old(sched).ready,
            sched.wf(),
            sched.tasks@.len() == mid.len(),
            sched.tasks@[c as int] == mid[c as int],
            orphans == mid[c as int].children@,
            !orphans.contains(0),
            !orphans.contains(c),
            sched.tasks@[0].children@ == mid[0].children@ + orphans.take(i as int),
            sched.tasks@[0].status == mid[0].status,
            sched.tasks@[0].exit_code == mid[0].exit_code,
            sched.tasks@[0].parent == mid[0].parent,
            forall|t: int|
                0 < t < mid.len() ==> {
                    &&& (#[trigger] sched.tasks@[t]).status == mid[t].status
                    &&& sched.tasks@[t].exit_code == mid[t].exit_code
                    &&& sched.tasks@[t].children == mid[t].children
                    &&& sched.tasks@[t].parent == (if orphans.take(i as int).contains(
                        t as usize,
                    ) {
                        Some(0usize)
                    } else {
                        mid[t].parent
                    })
                },
        decreases orphans.len() - i,
    {
        let child: usize = sched.tasks[c].children[i];
        let ghost before = sched.tasks@;
        proof {
            assert(orphans.contains(child));
            assert(sched.tasks@[c as int].children@[i as int] < sched.tasks@.len());
            assert(orphans.take(i + 1) =~= orphans.take(i as int).push(child));
        }
        sched.tasks[child].parent = Some(0);
        sched.tasks[0].children.push(child);
        proof {
            assert forall|t: int| 0 < t < mid.len() implies sched.tasks@[t].parent == (
            if #[trigger] orphans.take(i + 1).contains(t as usize) {
                Some(0usize)
            } else {
                mid[t].parent
            }) by {
                let q = orphans.take(i as int);
                assert(q.push(child).contains(t as usize) <==> (q.contains(t as usize) || t
                    as usize == child)) by {
                    if q.contains(t as usize) {
                        let k = choose|k: int| 0 <= k < q.len() && q[k] == t as usize;
                        assert(q.push(child)[k] == t as usize);
                    }
                    if t as usize == child {
                        assert(q.push(child)[q.len() as int] == child);
                    }
                }
            }
            assert forall|t: int, k: int|
                0 <= t < sched.tasks@.len() && 0 <= k < sched.tasks@[t].children@.len() implies
                #[trigger] sched.tasks@[t].children@[k] < sched.tasks@.len() by {
                if t == 0 && k < before[0].children@.len() {
                    assert(before[0].children@[k] < before.len());
                } else if t != 0 {
                    assert(before[t].children@[k] < before.len());
                }
            }
        }
        i = i + 1;
    }
    proof {
        assert(orphans.take(orphans.len() as int) =~= orphans);
    }
    sched.tasks[c].children.clear();
    proof {
        assert forall|t: int| 0 < t < mid.len() implies mid[t].parent == old(sched).tasks@[t].parent by {}
    }
}

/// A task that ends keeps its code for its parent, leaves its children to the first task and no
/// other task changes.
pub proof fn orphans_go_to_the_first_task(
    before: &Scheduler,
    after: &Scheduler,
    exit_code: i32,
    c: usize,
    i: int,
    t: int,
)
    requires
        task_exited(before, after, exit_code),
        before.wf(),
        before.current == Some(c),
        c != 0,
        0 <= i < before.tasks@[c as int].children@.len(),
        before.tasks@[c as int].children@[i] != c,
        0 <= t < before.tasks@.len(),
        t != c,
        !before.tasks@[c as int].children@.contains(t as usize),
    ensures
        after.tasks@[c as int].status == TaskStatus::Exited && after.tasks@[c as int].exit_code
            == exit_code,
        after.tasks@[c as int].children@.len() == 0,
        after.tasks@[before.tasks@[c as int].children@[i] as int].parent == Some(0usize),
        after.tasks@[0].children@.contains(before.tasks@[c as int].children@[i]),
        before.tasks@[0].children@.is_prefix_of(after.tasks@[0].children@),
        after.tasks@[t].status == before.tasks@[t].status && after.tasks@[t].parent
            == before.tasks@[t].parent,
{
    let orphans = before.tasks@[c as int].children@;
    let k = before.tasks@[0].children@.len() as int + i;
    assert(after.tasks@[0].children@[k] == orphans[i]);
    assert(orphans.contains(orphans[i]));
    assert(before.tasks@[c as int].children@[i] < before.tasks@.len());
    assert(after.tasks@[orphans[i] as int].parent == Some(0usize));
}

} // verus!
