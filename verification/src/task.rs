//! One timer: its kind, its running state and the time it has left.

use vstd::prelude::*;
use crate::error::{Error, Result, system_time_to_duration};
use crate::time::{TimeSpan, Timestamp, saturating_diff};

verus! {

/// What a task counts down.
#[derive(Clone, Copy, Debug, PartialEq, Eq, Structural)]
pub enum TaskType {
    /// A fixed length, accrued only while the task runs.
    Duration(TimeSpan),
    /// An absolute instant, always measured against the clock.
    Deadline(Timestamp),
}

/// A task kind over mathematical integers, in nanoseconds.
pub enum KindView {
    Duration(nat),
    Deadline(int),
}

impl View for TaskType {
    type V = KindView;

    open spec fn view(&self) -> KindView {
        match *self {
            TaskType::Duration(d) => KindView::Duration(d@),
            TaskType::Deadline(t) => KindView::Deadline(t@),
        }
    }
}

#[derive(Debug, Clone)]
pub struct Task {
    /// The label shown with the task.
    pub name: String,
    pub task_type: TaskType,
    /// Whether elapsed time is accruing.
    pub is_running: bool,
    /// The clock reading at which the task last began to run.
    pub start_time: Option<Timestamp>,
    /// The time left as of the last pause, reset or creation.
    pub remaining: TimeSpan,
    /// Whether the task has a display surface of its own.
    pub pinned: bool,
}

/// A task over mathematical values; times are in nanoseconds.
pub struct TaskView {
    pub name: Seq<char>,
    pub kind: KindView,
    pub running: bool,
    pub started: Option<int>,
    pub remaining: nat,
    pub pinned: bool,
}

/// The time from `now` to `deadline`, with a floor at zero; `None` where
/// either instant lies before the epoch and cannot be measured.
pub open spec fn until_deadline(deadline: int, now: int) -> Option<nat> {
    if deadline < 0 || now < 0 {
        None
    } else {
        Some(saturating_diff(deadline, now))
    }
}

impl TaskView {
    /// Every running task knows when it began to run.
    pub open spec fn wf(self) -> bool {
        self.running ==> self.started is Some
    }

    /// The time the kind grants a task that is created or reset at `now`.
    pub open spec fn fresh_remaining(kind: KindView, now: int) -> Option<nat> {
        match kind {
            KindView::Duration(d) => Some(d),
            KindView::Deadline(t) => until_deadline(t, now),
        }
    }

    /// The task that `new` builds at clock reading `now`; `None` on a clock failure.
    pub open spec fn created(name: Seq<char>, kind: KindView, now: int) -> Option<TaskView> {
        match Self::fresh_remaining(kind, now) {
            Some(remaining) => Some(
                TaskView { name, kind, running: false, started: None, remaining, pinned: false },
            ),
            None => None,
        }
    }

    /// The task after `start` at clock reading `now`.
    pub open spec fn started_at(self, now: int) -> TaskView {
        if self.running {
            self
        } else {
            TaskView { running: true, started: Some(now), ..self }
        }
    }

    /// The stored time less what has elapsed since the task began to run;
    /// `None` where the clock reads earlier than that start.
    pub open spec fn after_elapsed(self, now: int) -> Option<nat> {
        match self.started {
            Some(start) => if now < start {
                None
            } else {
                Some(saturating_diff(self.remaining as int, now - start))
            },
            None => Some(self.remaining),
        }
    }

    /// The task after `pause` at clock reading `now`; `None` on a clock failure.
    pub open spec fn paused_at(self, now: int) -> Option<TaskView> {
        if !self.running {
            Some(self)
        } else {
            match self.after_elapsed(now) {
                Some(remaining) => Some(
                    TaskView { running: false, started: None, remaining, ..self },
                ),
                None => None,
            }
        }
    }

    /// The task after `reset` at clock reading `now`; `None` on a clock failure.
    pub open spec fn reset_at(self, now: int) -> Option<TaskView> {
        match Self::fresh_remaining(self.kind, now) {
            Some(remaining) => Some(
                TaskView { running: false, started: None, remaining, ..self },
            ),
            None => None,
        }
    }

    /// The time left at clock reading `now`; `None` on a clock failure.
    pub open spec fn remaining_at(self, now: int) -> Option<nat> {
        match self.kind {
            KindView::Duration(_) => if self.running {
                self.after_elapsed(now)
            } else {
                Some(self.remaining)
            },
            KindView::Deadline(t) => until_deadline(t, now),
        }
    }
}

impl View for Task {
    type V = TaskView;

    open spec fn view(&self) -> TaskView {
        TaskView {
            name: self.name@,
            kind: self.task_type@,
            running: self.is_running,
            started: match self.start_time {
                Some(t) => Some(t@),
                None => None,
            },
            remaining: self.remaining@,
            pinned: self.pinned,
        }
    }
}

/// The time from `now` to `deadline`, each measured from the epoch.
fn time_until(deadline: Timestamp, now: Timestamp) -> (r: Result<TimeSpan>)
    ensures
        match until_deadline(deadline@, now@) {
            Some(left) => r is Ok && r->Ok_0@ == left,
            None => r == Err::<TimeSpan, Error>(Error::SystemTimeError),
        },
{
    match system_time_to_duration(deadline) {
        Ok(target) => match system_time_to_duration(now) {
            Ok(current) => Ok(target.saturating_sub(current)),
            Err(e) => Err(e),
        },
        Err(e) => Err(e),
    }
}

impl Task {
    /// Every running task knows when it began to run.
    pub open spec fn wf(&self) -> bool {
        self@.wf()
    }

    /// A paused, unpinned task of the given kind, as of clock reading `now`.
    /// Fails with `SystemTimeError` exactly where the kind is a deadline and
    /// the deadline or `now` lies before the epoch.
    pub fn new_at(name: String, task_type: TaskType, now: Timestamp) -> (r: Result<Task>)
        ensures
            match TaskView::created(name@, task_type@, now@) {
                Some(v) => r is Ok && r->Ok_0@ == v && r->Ok_0.task_type == task_type,
                None => r is Err && r->Err_0 == Error::SystemTimeError,
            },
    {
        let remaining = match task_type {
            TaskType::Duration(d) => d,
            TaskType::Deadline(t) => match time_until(t, now) {
                Ok(left) => left,
                Err(e) => { return Err(e); },
            },
        };
        Ok(Task { name, task_type, is_running: false, start_time: None, remaining, pinned: false })
    }

    /// A paused, unpinned task of the given kind. A duration task never fails
    /// and holds its full length; a deadline task is measured against one
    /// reading of the system clock.
    pub fn new(name: String, task_type: TaskType) -> (r: Result<Self>)
        ensures
            r is Ok ==> r->Ok_0.wf() && r->Ok_0.task_type == task_type,
            r is Err ==> r->Err_0 == Error::SystemTimeError,
            task_type is Duration ==> r is Ok && r->Ok_0@ == TaskView::created(name@, task_type@, 0)->Some_0,
            task_type is Deadline ==> exists|now: int|
                match #[trigger] TaskView::created(name@, task_type@, now) {
                    Some(v) => r is Ok && r->Ok_0@ == v,
                    None => r is Err,
                },
    {
        match task_type {
            TaskType::Duration(_) => Task::new_at(name, task_type, Timestamp::from_unix_nanos(0)),
            TaskType::Deadline(_) => {
                let now = Timestamp::now();
                Task::new_at(name, task_type, now)
            },
        }
    }

    /// Begins to run at clock reading `now`; a running task is left as it is.
    pub fn start_at(&mut self, now: Timestamp)
        ensures
            final(self)@ == old(self)@.started_at(now@),
            final(self).task_type == old(self).task_type,
            final(self).name == old(self).name,
    {
        if !self.is_running {
            self.is_running = true;
            self.start_time = Some(now);
        }
    }

    /// Begins to run at the current reading of the system clock; a running
    /// task is left as it is.
    pub fn start(&mut self)
        ensures
            exists|now: int| final(self)@ == #[trigger] old(self)@.started_at(now),
            old(self).is_running ==> *final(self) == *old(self),
            final(self).is_running,
            final(self).task_type == old(self).task_type,
            final(self).name == old(self).name,
    {
        if !self.is_running {
            let now = Timestamp::now();
            self.start_at(now);
        } else {
            assert(self@ == self@.started_at(0));
        }
    }

    /// Stops at clock reading `now` and commits the time that elapsed since
    /// the start. A task that is not running is left as it is. Fails with
    /// `SystemTimeError`, changing nothing, exactly where `now` reads earlier
    /// than the start.
    pub fn pause_at(&mut self, now: Timestamp) -> (r: Result<()>)
        ensures
            match old(self)@.paused_at(now@) {
                Some(v) => r is Ok && final(self)@ == v,
                None => r == Err::<(), Error>(Error::SystemTimeError) && *final(self) == *old(self),
            },
            final(self).task_type == old(self).task_type,
            final(self).name == old(self).name,
            !old(self).is_running ==> *final(self) == *old(self),
    {
        if self.is_running {
            if let Some(start) = self.start_time {
                match now.duration_since(start) {
                    Ok(elapsed) => {
                        self.remaining = self.remaining.saturating_sub(elapsed);
                    },
                    Err(e) => { return Err(e); },
                }
            }
            self.is_running = false;
            self.start_time = None;
        }
        Ok(())
    }

    /// Stops at the current reading of the system clock and commits the time
    /// that elapsed since the start. A task that is not running is left as it
    /// is and the call succeeds. On a clock failure nothing changes.
    pub fn pause(&mut self) -> (r: Result<()>)
        ensures
            exists|now: int|
                match #[trigger] old(self)@.paused_at(now) {
                    Some(v) => r is Ok && final(self)@ == v,
                    None => r == Err::<(), Error>(Error::SystemTimeError) && *final(self) == *old(self),
                },
            !old(self).is_running ==> r is Ok && *final(self) == *old(self),
            r is Ok ==> !final(self).is_running,
            r is Err ==> r->Err_0 == Error::SystemTimeError,
            final(self).task_type == old(self).task_type,
            final(self).name == old(self).name,
    {
        if self.is_running {
            let now = Timestamp::now();
            self.pause_at(now)
        } else {
            assert(self@.paused_at(0) == Some(self@));
            Ok(())
        }
    }

    /// Stops the task and grants it afresh what its kind grants at clock
    /// reading `now`: the full length, or the time to the deadline. Fails with
    /// `SystemTimeError`, changing nothing, exactly where the kind is a
    /// deadline and the deadline or `now` lies before the epoch.
    pub fn reset_at(&mut self, now: Timestamp) -> (r: Result<()>)
        ensures
            match old(self)@.reset_at(now@) {
                Some(v) => r is Ok && final(self)@ == v,
                None => r == Err::<(), Error>(Error::SystemTimeError) && *final(self) == *old(self),
            },
            final(self).task_type == old(self).task_type,
            final(self).name == old(self).name,
    {
        let remaining = match self.task_type {
            TaskType::Duration(d) => d,
            TaskType::Deadline(t) => match time_until(t, now) {
                Ok(left) => left,
                Err(e) => { return Err(e); },
            },
        };
        self.is_running = false;
        self.start_time = None;
        self.remaining = remaining;
        Ok(())
    }

    /// Stops the task and grants it afresh what its kind grants. A duration
    /// task never fails; a deadline task is measured against one reading of
    /// the system clock, and on a clock failure nothing changes.
    pub fn reset(&mut self) -> (r: Result<()>)
        ensures
            exists|now: int|
                match #[trigger] old(self)@.reset_at(now) {
                    Some(v) => r is Ok && final(self)@ == v,
                    None => r == Err::<(), Error>(Error::SystemTimeError) && *final(self) == *old(self),
                },
            old(self).task_type is Duration ==> r is Ok,
            r is Ok ==> final(self).wf() && !final(self).is_running,
            r is Err ==> r->Err_0 == Error::SystemTimeError,
            final(self).task_type == old(self).task_type,
            final(self).name == old(self).name,
    {
        match self.task_type {
            TaskType::Duration(_) => self.reset_at(Timestamp::from_unix_nanos(0)),
            TaskType::Deadline(_) => {
                let now = Timestamp::now();
                self.reset_at(now)
            },
        }
    }

    /// The time left at clock reading `now`. Fails with `SystemTimeError`
    /// exactly where the spec function gives `None`.
    pub fn remaining_at(&self, now: Timestamp) -> (r: Result<TimeSpan>)
        ensures
            match self@.remaining_at(now@) {
                Some(left) => r is Ok && r->Ok_0@ == left,
                None => r == Err::<TimeSpan, Error>(Error::SystemTimeError),
            },
    {
        match self.task_type {
            TaskType::Duration(_) => {
                if !self.is_running {
                    return Ok(self.remaining);
                }
                if let Some(start) = self.start_time {
                    return match now.duration_since(start) {
                        Ok(elapsed) => Ok(self.remaining.saturating_sub(elapsed)),
                        Err(e) => Err(e),
                    };
                }
                Ok(self.remaining)
            },
            TaskType::Deadline(deadline) => time_until(deadline, now),
        }
    }

    /// The time left. A duration task that is not running reports its stored
    /// time without reading the clock; every other task is measured against
    /// one reading of the system clock.
    pub fn get_remaining_time(&self) -> (r: Result<TimeSpan>)
        ensures
            exists|now: int|
                match #[trigger] self@.remaining_at(now) {
                    Some(left) => r is Ok && r->Ok_0@ == left,
                    None => r == Err::<TimeSpan, Error>(Error::SystemTimeError),
                },
            self.task_type is Duration && !self.is_running ==> r == Ok::<TimeSpan, Error>(self.remaining),
            r is Ok && self.task_type is Duration ==> r->Ok_0@ <= self.remaining@,
            r is Err ==> r->Err_0 == Error::SystemTimeError,
    {
        let idle: bool = match self.task_type {
            TaskType::Duration(_) => !self.is_running,
            TaskType::Deadline(_) => false,
        };
        if idle {
            self.remaining_at(Timestamp::from_unix_nanos(0))
        } else {
            let now = Timestamp::now();
            self.remaining_at(now)
        }
    }
}


/// A duration task has its full length left straight after creation, at
/// whatever time that is asked.
pub proof fn lemma_new_duration_has_full_length(name: Seq<char>, d: nat, created: int, asked: int)
    ensures
        TaskView::created(name, KindView::Duration(d), created) is Some,
        TaskView::created(name, KindView::Duration(d), created)->Some_0.remaining_at(asked) == Some(d),
        TaskView::created(name, KindView::Duration(d), created)->Some_0.wf(),
{
}

/// Pausing, starting and pausing again, at clock readings that do not run
/// backwards, never leaves more time than there was before the three calls.
pub proof fn lemma_pause_start_pause_never_gains(
    task: TaskView,
    before: int,
    first_pause: int,
    start: int,
    second_pause: int,
    after: int,
)
    requires
        before <= first_pause <= start <= second_pause <= after,
        task.remaining_at(before) is Some,
        task.paused_at(first_pause) is Some,
        task.paused_at(first_pause)->Some_0.started_at(start).paused_at(second_pause) is Some,
    ensures
        ({
            let end = task.paused_at(first_pause)->Some_0.started_at(start).paused_at(
                second_pause,
            )->Some_0;
            &&& end.remaining_at(after) is Some
            &&& end.remaining_at(after)->Some_0 <= task.remaining_at(before)->Some_0
            &&& !end.running
        }),
{
}

/// A second `start` changes nothing, whatever the clock reads.
pub proof fn lemma_start_is_idempotent(task: TaskView, first: int, second: int)
    ensures
        task.started_at(first).started_at(second) == task.started_at(first),
{
}

/// What a deadline task has left depends on the clock alone: neither a pause
/// nor a start changes it.
pub proof fn lemma_deadline_ignores_toggling(task: TaskView, toggled: int, asked: int)
    requires
        task.kind is Deadline,
    ensures
        task.started_at(toggled).remaining_at(asked) == task.remaining_at(asked),
        task.paused_at(toggled) is Some ==> task.paused_at(toggled)->Some_0.remaining_at(asked)
            == task.remaining_at(asked),
        task.remaining_at(asked) == until_deadline(task.kind->Deadline_0, asked),
{
}

/// A reset gives a duration task its full length back, running or not, and
/// cannot fail.
pub proof fn lemma_reset_restores_duration(task: TaskView, reset: int, asked: int)
    requires
        task.kind is Duration,
    ensures
        task.reset_at(reset) is Some,
        task.reset_at(reset)->Some_0.remaining_at(asked) == Some(task.kind->Duration_0),
        task.reset_at(reset)->Some_0.wf(),
{
}

/// Every transition keeps a task well formed.
pub proof fn lemma_transitions_keep_wf(task: TaskView, now: int)
    requires
        task.wf(),
    ensures
        task.started_at(now).wf(),
        task.paused_at(now) is Some ==> task.paused_at(now)->Some_0.wf(),
        task.reset_at(now) is Some ==> task.reset_at(now)->Some_0.wf(),
{
}

/// No transition changes a task's kind, name or pin, and a start leaves the
/// stored time as it is: that time moves only on a pause or a reset.
pub proof fn lemma_transitions_keep_identity(task: TaskView, now: int)
    ensures
        task.started_at(now).kind == task.kind && task.started_at(now).name == task.name
            && task.started_at(now).pinned == task.pinned,
        task.started_at(now).remaining == task.remaining,
        task.paused_at(now) is Some ==> task.paused_at(now)->Some_0.kind == task.kind
            && task.paused_at(now)->Some_0.name == task.name && task.paused_at(now)->Some_0.pinned
            == task.pinned,
        task.paused_at(now) is Some ==> task.paused_at(now)->Some_0.remaining <= task.remaining,
        task.reset_at(now) is Some ==> task.reset_at(now)->Some_0.kind == task.kind
            && task.reset_at(now)->Some_0.name == task.name && task.reset_at(now)->Some_0.pinned
            == task.pinned,
{
}

} // verus!
