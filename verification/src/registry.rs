//! The ordered list of tasks: how it begins and how it grows.

use vstd::prelude::*;
use crate::action::views;
use crate::error::{Error, Result};
use crate::parser::{parse_time_input, planned, Plan};
use crate::task::{KindView, Task, TaskType, TaskView};
use crate::time::{TimeSpan, Timestamp, NANOS_PER_SEC};

verus! {

/// The task that an input of a planned duration adds.
pub open spec fn duration_task(label: Seq<char>, secs: u64) -> TaskView {
    TaskView {
        name: label,
        kind: KindView::Duration((secs * NANOS_PER_SEC) as nat),
        running: false,
        started: None,
        remaining: (secs * NANOS_PER_SEC) as nat,
        pinned: false,
    }
}

/// Whether `task` is a fresh deadline task of the given label.
pub open spec fn is_deadline_task(task: TaskView, label: Seq<char>) -> bool {
    task.name == label && task.kind is Deadline && !task.running && task.started is None
        && !task.pinned
}

/// Reads a time input and appends the task it describes. On any failure the
/// registry is left as it is. An input of a planned duration always adds its
/// task; a planned deadline is read off the local clock and may still fail,
/// with `TimezoneConversion` or `SystemTimeError`.
pub fn add_task(tasks: &mut Vec<Task>, input: &str) -> (r: Result<()>)
    ensures
        r is Err ==> final(tasks)@ == old(tasks)@,
        r is Ok ==> final(tasks)@.len() == old(tasks)@.len() + 1 && final(tasks)@.drop_last()
            == old(tasks)@,
        match planned(input@) {
            Err(e) => r is Err && r->Err_0 == e,
            Ok((label, Plan::Duration(secs))) => r is Ok && final(tasks)@.last()@ == duration_task(
                label,
                secs,
            ),
            Ok((label, Plan::Deadline(_))) => (r is Ok && is_deadline_task(
                final(tasks)@.last()@,
                label,
            )) || (r is Err && (r->Err_0 == Error::TimezoneConversion || r->Err_0
                == Error::SystemTimeError)),
        },
{
    let (name, task_type) = match parse_time_input(input) {
        Ok(parsed) => parsed,
        Err(e) => { return Err(e); },
    };
    let ghost label = name@;
    match Task::new(name, task_type) {
        Ok(task) => {
            tasks.push(task);
            assert(tasks@.drop_last() =~= old(tasks)@);
            Ok(())
        },
        Err(e) => Err(e),
    }
}

/// The deadline task `secs` seconds ahead of `now`, or nothing where that
/// instant cannot be held or the clock fails the task.
pub open spec fn deadline_ahead(name: Seq<char>, now: int, secs: nat) -> Option<TaskView> {
    if now + secs * NANOS_PER_SEC > u128::MAX {
        None
    } else {
        TaskView::created(name, KindView::Deadline(now + secs * NANOS_PER_SEC), now)
    }
}

/// The list with the task behind it, if there is one.
pub open spec fn with_task(tasks: Seq<TaskView>, task: Option<TaskView>) -> Seq<TaskView> {
    match task {
        Some(t) => tasks.push(t),
        None => tasks,
    }
}

/// The tasks a registry begins with at clock reading `now`: three deadlines
/// one, two and three hours ahead, between them three durations of thirty,
/// fifteen and forty-five minutes. A task the clock fails is left out.
pub open spec fn initial_tasks(now: int) -> Seq<TaskView> {
    let a = with_task(Seq::empty(), deadline_ahead("工作1"@, now, 3600));
    let b = with_task(a, Some(duration_task("学习1"@, 1800)));
    let c = with_task(b, deadline_ahead("工作2"@, now, 7200));
    let d = with_task(c, Some(duration_task("学习2"@, 900)));
    let e = with_task(d, deadline_ahead("工作3"@, now, 10800));
    with_task(e, Some(duration_task("学习3"@, 2700)))
}

/// Appends the deadline task `secs` seconds ahead of `now`, if it can be made.
fn push_deadline_ahead(tasks: &mut Vec<Task>, name: &str, now: Timestamp, secs: u64)
    ensures
        views(final(tasks)@) == with_task(views(old(tasks)@), deadline_ahead(name@, now@, secs as nat)),
{
    match now.checked_add(TimeSpan::from_secs(secs)) {
        Some(deadline) => match Task::new_at(name.to_owned(), TaskType::Deadline(deadline), now) {
            Ok(task) => {
                tasks.push(task);
                assert(views(tasks@) =~= views(old(tasks)@).push(task@));
            },
            Err(_) => {},
        },
        None => {},
    }
}

/// Appends a duration task of `secs` seconds.
fn push_duration(tasks: &mut Vec<Task>, name: &str, now: Timestamp, secs: u64)
    ensures
        views(final(tasks)@) == views(old(tasks)@).push(duration_task(name@, secs)),
{
    match Task::new_at(name.to_owned(), TaskType::Duration(TimeSpan::from_secs(secs)), now) {
        Ok(task) => {
            tasks.push(task);
            assert(views(tasks@) =~= views(old(tasks)@).push(task@));
        },
        Err(_) => {},
    }
}

/// The tasks a registry begins with at clock reading `now`.
pub fn initial_registry_at(now: Timestamp) -> (tasks: Vec<Task>)
    ensures
        views(tasks@) == initial_tasks(now@),
{
    let mut tasks: Vec<Task> = Vec::new();
    assert(views(tasks@) =~= Seq::<TaskView>::empty());
    push_deadline_ahead(&mut tasks, "工作1", now, 3600);
    push_duration(&mut tasks, "学习1", now, 1800);
    push_deadline_ahead(&mut tasks, "工作2", now, 7200);
    push_duration(&mut tasks, "学习2", now, 900);
    push_deadline_ahead(&mut tasks, "工作3", now, 10800);
    push_duration(&mut tasks, "学习3", now, 2700);
    tasks
}

/// The tasks a registry begins with at one reading of the system clock.
pub fn initial_registry() -> (tasks: Vec<Task>)
    ensures
        exists|now: int| views(tasks@) == #[trigger] initial_tasks(now),
{
    let now = Timestamp::now();
    initial_registry_at(now)
}

} // verus!
