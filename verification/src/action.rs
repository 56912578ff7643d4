//! The codec between action strings and commands, and what a command does to
//! the task registry.

use vstd::prelude::*;
use vstd::string::StringExecFns;
use crate::display::{decimal_digits, lemma_decimal_digits_read_back, push_decimal};
use crate::error::{Error, Result};
use crate::task::{Task, TaskView};
use crate::text::{is_prefix_of, parse_usize, skip_chars, starts_with, unsigned_decimal, same_text};
use crate::time::Timestamp;

verus! {

/// A decoded intent of the user.
#[derive(Clone, Copy, Debug, PartialEq, Eq, Structural)]
pub enum Command {
    Toggle(usize),
    Reset(usize),
    Delete(usize),
    Pin(usize),
    Unpin(usize),
    NewTask,
    Edit(usize),
    Quit,
    PinnedToggle(usize),
    PinnedReset(usize),
}

/// The verbs that are followed by a task index.
#[derive(Clone, Copy, Debug, PartialEq, Eq, Structural)]
pub enum Verb {
    Toggle,
    Reset,
    Delete,
    Pin,
    Unpin,
    PinnedToggle,
    PinnedReset,
    Edit,
}

impl Verb {
    /// The text an action string of this verb begins with.
    pub open spec fn prefix(self) -> Seq<char> {
        match self {
            Verb::Toggle => "toggle_"@,
            Verb::Reset => "reset_"@,
            Verb::Delete => "delete_"@,
            Verb::Pin => "pin_"@,
            Verb::Unpin => "unpin_"@,
            Verb::PinnedToggle => "pinned_toggle_"@,
            Verb::PinnedReset => "pinned_reset_"@,
            Verb::Edit => "edit_"@,
        }
    }

    /// The command of this verb on the task at `index`.
    pub open spec fn on(self, index: usize) -> Command {
        match self {
            Verb::Toggle => Command::Toggle(index),
            Verb::Reset => Command::Reset(index),
            Verb::Delete => Command::Delete(index),
            Verb::Pin => Command::Pin(index),
            Verb::Unpin => Command::Unpin(index),
            Verb::PinnedToggle => Command::PinnedToggle(index),
            Verb::PinnedReset => Command::PinnedReset(index),
            Verb::Edit => Command::Edit(index),
        }
    }

    /// The verb an action string begins with, if any.
    pub open spec fn of(action: Seq<char>) -> Option<Verb> {
        if is_prefix_of(Verb::Toggle.prefix(), action) {
            Some(Verb::Toggle)
        } else if is_prefix_of(Verb::Reset.prefix(), action) {
            Some(Verb::Reset)
        } else if is_prefix_of(Verb::Delete.prefix(), action) {
            Some(Verb::Delete)
        } else if is_prefix_of(Verb::Pin.prefix(), action) {
            Some(Verb::Pin)
        } else if is_prefix_of(Verb::Unpin.prefix(), action) {
            Some(Verb::Unpin)
        } else if is_prefix_of(Verb::PinnedToggle.prefix(), action) {
            Some(Verb::PinnedToggle)
        } else if is_prefix_of(Verb::PinnedReset.prefix(), action) {
            Some(Verb::PinnedReset)
        } else if is_prefix_of(Verb::Edit.prefix(), action) {
            Some(Verb::Edit)
        } else {
            None
        }
    }

    /// The text an action string of this verb begins with.
    pub fn text(self) -> (r: &'static str)
        ensures
            r@ == self.prefix(),
    {
        match self {
            Verb::Toggle => "toggle_",
            Verb::Reset => "reset_",
            Verb::Delete => "delete_",
            Verb::Pin => "pin_",
            Verb::Unpin => "unpin_",
            Verb::PinnedToggle => "pinned_toggle_",
            Verb::PinnedReset => "pinned_reset_",
            Verb::Edit => "edit_",
        }
    }

    /// The command of this verb on the task at `index`.
    pub fn command(self, index: usize) -> (c: Command)
        ensures
            c == self.on(index),
    {
        match self {
            Verb::Toggle => Command::Toggle(index),
            Verb::Reset => Command::Reset(index),
            Verb::Delete => Command::Delete(index),
            Verb::Pin => Command::Pin(index),
            Verb::Unpin => Command::Unpin(index),
            Verb::PinnedToggle => Command::PinnedToggle(index),
            Verb::PinnedReset => Command::PinnedReset(index),
            Verb::Edit => Command::Edit(index),
        }
    }

    /// The verb an action string begins with, if any.
    pub fn find(action: &str) -> (r: Option<Verb>)
        ensures
            r == Verb::of(action@),
    {
        if starts_with(action, Verb::Toggle.text()) {
            Some(Verb::Toggle)
        } else if starts_with(action, Verb::Reset.text()) {
            Some(Verb::Reset)
        } else if starts_with(action, Verb::Delete.text()) {
            Some(Verb::Delete)
        } else if starts_with(action, Verb::Pin.text()) {
            Some(Verb::Pin)
        } else if starts_with(action, Verb::Unpin.text()) {
            Some(Verb::Unpin)
        } else if starts_with(action, Verb::PinnedToggle.text()) {
            Some(Verb::PinnedToggle)
        } else if starts_with(action, Verb::PinnedReset.text()) {
            Some(Verb::PinnedReset)
        } else if starts_with(action, Verb::Edit.text()) {
            Some(Verb::Edit)
        } else {
            None
        }
    }
}

/// What an action string means: the two bare verbs, or a verb and, behind
/// it, the index of a task as an unsigned decimal.
pub open spec fn decoded(action: Seq<char>) -> Result<Command> {
    if action == "quit"@ {
        Ok(Command::Quit)
    } else if action == "new_task"@ {
        Ok(Command::NewTask)
    } else {
        match Verb::of(action) {
            None => Err(Error::InvalidActionFormat),
            Some(verb) => match unsigned_decimal(
                action.skip(verb.prefix().len() as int),
                usize::MAX as nat,
            ) {
                Some(index) => Ok(verb.on(index as usize)),
                None => Err(Error::ParseActionIndex),
            },
        }
    }
}

/// Decodes an action string. Fails with `InvalidActionFormat` where it begins
/// with no known verb, and with `ParseActionIndex` where what follows the
/// verb is no index.
pub fn dispatch(action: &str) -> (r: Result<Command>)
    ensures
        r == decoded(action@),
{
    if same_text(action, "quit") {
        return Ok(Command::Quit);
    }
    if same_text(action, "new_task") {
        return Ok(Command::NewTask);
    }
    match Verb::find(action) {
        None => Err(Error::InvalidActionFormat),
        Some(verb) => {
            let skip: usize = verb.text().unicode_len();
            match parse_usize(skip_chars(action, skip)) {
                Some(index) => Ok(verb.command(index)),
                None => Err(Error::ParseActionIndex),
            }
        },
    }
}

impl Command {
    /// The verb and the index of a command on a task; `None` for a bare verb.
    pub open spec fn parts(self) -> Option<(Verb, usize)> {
        match self {
            Command::Toggle(i) => Some((Verb::Toggle, i)),
            Command::Reset(i) => Some((Verb::Reset, i)),
            Command::Delete(i) => Some((Verb::Delete, i)),
            Command::Pin(i) => Some((Verb::Pin, i)),
            Command::Unpin(i) => Some((Verb::Unpin, i)),
            Command::PinnedToggle(i) => Some((Verb::PinnedToggle, i)),
            Command::PinnedReset(i) => Some((Verb::PinnedReset, i)),
            Command::Edit(i) => Some((Verb::Edit, i)),
            Command::NewTask => None,
            Command::Quit => None,
        }
    }

    /// The verb and the index of a command on a task; `None` for a bare verb.
    pub fn split(self) -> (r: Option<(Verb, usize)>)
        ensures
            r == self.parts(),
    {
        match self {
            Command::Toggle(i) => Some((Verb::Toggle, i)),
            Command::Reset(i) => Some((Verb::Reset, i)),
            Command::Delete(i) => Some((Verb::Delete, i)),
            Command::Pin(i) => Some((Verb::Pin, i)),
            Command::Unpin(i) => Some((Verb::Unpin, i)),
            Command::PinnedToggle(i) => Some((Verb::PinnedToggle, i)),
            Command::PinnedReset(i) => Some((Verb::PinnedReset, i)),
            Command::Edit(i) => Some((Verb::Edit, i)),
            Command::NewTask => None,
            Command::Quit => None,
        }
    }
}

/// The action string of a command: the bare verb, or the verb's prefix and
/// the index in decimal.
pub open spec fn encoded(command: Command) -> Seq<char> {
    match command.parts() {
        Some((verb, index)) => verb.prefix() + decimal_digits(index as nat),
        None => if command == Command::Quit {
            "quit"@
        } else {
            "new_task"@
        },
    }
}

/// Writes the action string of a command.
pub fn encode(command: Command) -> (r: String)
    ensures
        r@ == encoded(command),
{
    let mut out = String::new();
    match command.split() {
        Some((verb, index)) => {
            out.append(verb.text());
            push_decimal(&mut out, index as u128);
        },
        None => {
            match command {
                Command::Quit => out.append("quit"),
                _ => out.append("new_task"),
            }
        },
    }
    assert(out@ =~= encoded(command));
    out
}

/// A text that begins with a prefix has the prefix's character at each of
/// the prefix's places.
proof fn lemma_prefix_fixes_chars(prefix: Seq<char>, text: Seq<char>, k: int)
    requires
        is_prefix_of(prefix, text),
        0 <= k < prefix.len(),
    ensures
        k < text.len(),
        text[k] == prefix[k],
{
    assert(text.subrange(0, prefix.len() as int)[k] == text[k]);
}

/// An action string of `verb` begins with the prefix of no other verb.
proof fn lemma_verb_is_found(verb: Verb, tail: Seq<char>)
    ensures
        Verb::of(verb.prefix() + tail) == Some(verb),
        verb.prefix() + tail != "quit"@,
        verb.prefix() + tail != "new_task"@,
        (verb.prefix() + tail).skip(verb.prefix().len() as int) == tail,
{
    reveal_strlit("toggle_");
    reveal_strlit("reset_");
    reveal_strlit("delete_");
    reveal_strlit("pin_");
    reveal_strlit("unpin_");
    reveal_strlit("pinned_toggle_");
    reveal_strlit("pinned_reset_");
    reveal_strlit("edit_");
    reveal_strlit("quit");
    reveal_strlit("new_task");
    let action = verb.prefix() + tail;
    assert(action.subrange(0, verb.prefix().len() as int) =~= verb.prefix());
    assert(is_prefix_of(verb.prefix(), action));
    assert(action.skip(verb.prefix().len() as int) =~= tail);
    assert(action[0] == verb.prefix()[0]);
    assert(action[3] == verb.prefix()[3]);
    assert(action[0] != 'q' && action[0] != 'n');
    assert("quit"@[0] == 'q');
    assert("new_task"@[0] == 'n');
    assert forall|other: Verb| other != verb implies !is_prefix_of(other.prefix(), action) by {
        if is_prefix_of(other.prefix(), action) {
            lemma_prefix_fixes_chars(other.prefix(), action, 0);
            lemma_prefix_fixes_chars(other.prefix(), action, 3);
            if other.prefix().len() > 7 && verb.prefix().len() > 7 {
                lemma_prefix_fixes_chars(other.prefix(), action, 7);
                assert(action[7] == verb.prefix()[7]);
            }
        }
    }
}

/// Decoding the action string of a command gives the command back.
pub proof fn lemma_decode_inverts_encode(command: Command)
    ensures
        decoded(encoded(command)) == Ok::<Command, Error>(command),
{
    match command.parts() {
        Some((verb, index)) => {
            let digits = decimal_digits(index as nat);
            lemma_verb_is_found(verb, digits);
            lemma_decimal_digits_read_back(index as nat);
            assert(digits[0] != '+');
            assert(unsigned_decimal(digits, usize::MAX as nat) == Some(index as nat));
        },
        None => {
            reveal_strlit("quit");
            reveal_strlit("new_task");
            assert("quit"@[0] != "new_task"@[0]);
        },
    }
}

/// How a command ended.
#[derive(Clone, Copy, Debug, PartialEq, Eq, Structural)]
pub enum Status {
    /// The registry holds the command's effect.
    Done,
    /// No task stands at the index; nothing changed.
    TaskNotFound,
    /// The clock failed the task; nothing changed.
    ClockFailed,
    /// The command is for the presentation layer to carry out.
    Deferred,
}

/// What becomes of the tasks' own display surfaces.
#[derive(Clone, Copy, Debug, PartialEq, Eq, Structural)]
pub enum SurfaceChange {
    /// Nothing changes.
    Keep,
    /// The task at the index gets a surface.
    Create(usize),
    /// The surface of the task at the index goes.
    Remove(usize),
    /// The surface of the task at the index shows new texts.
    Refresh(usize),
    /// The task at the index is gone: its surface goes, and the surface of
    /// every later task now belongs to the index one below.
    Shift(usize),
}

/// Where the task at `index` stands once the task at `deleted` is gone:
/// nowhere if it is that task, one place down if it stood behind it.
pub open spec fn shifted_index(index: usize, deleted: usize) -> Option<usize> {
    if index == deleted {
        None
    } else if index > deleted {
        Some((index - 1) as usize)
    } else {
        Some(index)
    }
}

/// Where the task at `index` stands once the task at `deleted` is gone.
pub fn shift_index(index: usize, deleted: usize) -> (r: Option<usize>)
    ensures
        r == shifted_index(index, deleted),
{
    if index == deleted {
        None
    } else if index > deleted {
        Some(index - 1)
    } else {
        Some(index)
    }
}

/// What an action string becomes once the task at `deleted` is gone: a
/// command on that task goes, a command on a later task names the index one
/// below, and every other string stays as it is.
pub open spec fn shifted_action(action: Seq<char>, deleted: usize) -> Option<Seq<char>> {
    match decoded(action) {
        Ok(command) => match command.parts() {
            Some((verb, index)) => if index == deleted {
                None
            } else if index > deleted {
                Some(encoded(verb.on((index - 1) as usize)))
            } else {
                Some(action)
            },
            None => Some(action),
        },
        Err(_) => Some(action),
    }
}

/// Once the task at `deleted` is gone, the shifted action string of a
/// command on another task decodes to the same command on the place where
/// that task now stands.
pub proof fn lemma_shifted_action_follows_task(verb: Verb, index: usize, deleted: usize)
    requires
        index != deleted,
    ensures
        shifted_index(index, deleted) is Some,
        shifted_action(encoded(verb.on(index)), deleted) is Some,
        decoded(shifted_action(encoded(verb.on(index)), deleted)->Some_0) == Ok::<Command, Error>(
            verb.on(shifted_index(index, deleted)->Some_0),
        ),
{
    lemma_decode_inverts_encode(verb.on(index));
    assert(verb.on(index).parts() == Some((verb, index)));
    if index > deleted {
        lemma_decode_inverts_encode(verb.on((index - 1) as usize));
    }
}

/// What an action string becomes once the task at `deleted` is gone.
pub fn shift_action(action: &str, deleted: usize) -> (r: Option<String>)
    ensures
        match shifted_action(action@, deleted) {
            Some(text) => r is Some && r->Some_0@ == text,
            None => r is None,
        },
{
    match dispatch(action) {
        Ok(command) => match command.split() {
            Some((verb, index)) => {
                if index == deleted {
                    None
                } else if index > deleted {
                    Some(encode(verb.command(index - 1)))
                } else {
                    Some(action.to_owned())
                }
            },
            None => Some(action.to_owned()),
        },
        Err(_) => Some(action.to_owned()),
    }
}

/// The report of one command: how it ended and what the presentation layer
/// has to redraw.
#[derive(Clone, Copy, Debug, PartialEq, Eq, Structural)]
pub struct Outcome {
    pub status: Status,
    pub refresh_menu: bool,
    pub surface: SurfaceChange,
}

/// The tasks of a registry over mathematical values.
pub open spec fn views(tasks: Seq<Task>) -> Seq<TaskView> {
    tasks.map_values(|t: Task| t@)
}

/// A task after a toggle at clock reading `now`: a running task pauses, any
/// other starts. `None` on a clock failure.
pub open spec fn toggled_at(task: TaskView, now: int) -> Option<TaskView> {
    if task.running {
        task.paused_at(now)
    } else {
        Some(task.started_at(now))
    }
}

/// The registry after a change to the task at `index`, with the status;
/// untouched where the index is out of range or the clock failed.
pub open spec fn changed(tasks: Seq<TaskView>, index: usize, to: Option<TaskView>) -> (
    Seq<TaskView>,
    Status,
) {
    if index >= tasks.len() {
        (tasks, Status::TaskNotFound)
    } else {
        match to {
            Some(task) => (tasks.update(index as int, task), Status::Done),
            None => (tasks, Status::ClockFailed),
        }
    }
}

/// The registry and the report after `command` at clock reading `now`.
pub open spec fn executed(tasks: Seq<TaskView>, command: Command, now: int) -> (
    Seq<TaskView>,
    Outcome,
) {
    match command {
        Command::Toggle(i) => {
            let to = if i < tasks.len() { toggled_at(tasks[i as int], now) } else { None };
            let (after, status) = changed(tasks, i, to);
            (after, Outcome { status, refresh_menu: true, surface: SurfaceChange::Keep })
        },
        Command::PinnedToggle(i) => {
            let to = if i < tasks.len() { toggled_at(tasks[i as int], now) } else { None };
            let (after, status) = changed(tasks, i, to);
            (after, Outcome { status, refresh_menu: true, surface: SurfaceChange::Refresh(i) })
        },
        Command::Reset(i) => {
            let to = if i < tasks.len() { tasks[i as int].reset_at(now) } else { None };
            let (after, status) = changed(tasks, i, to);
            (after, Outcome { status, refresh_menu: true, surface: SurfaceChange::Keep })
        },
        Command::PinnedReset(i) => {
            let to = if i < tasks.len() { tasks[i as int].reset_at(now) } else { None };
            let (after, status) = changed(tasks, i, to);
            (after, Outcome { status, refresh_menu: true, surface: SurfaceChange::Refresh(i) })
        },
        Command::Delete(i) => if i < tasks.len() {
            (
                tasks.remove(i as int),
                Outcome { status: Status::Done, refresh_menu: true, surface: SurfaceChange::Shift(i) },
            )
        } else {
            (
                tasks,
                Outcome {
                    status: Status::TaskNotFound,
                    refresh_menu: true,
                    surface: SurfaceChange::Keep,
                },
            )
        },
        Command::Pin(i) => if i < tasks.len() {
            let task = tasks[i as int];
            (
                tasks.update(i as int, TaskView { pinned: !task.pinned, ..task }),
                Outcome {
                    status: Status::Done,
                    refresh_menu: true,
                    surface: if task.pinned {
                        SurfaceChange::Remove(i)
                    } else {
                        SurfaceChange::Create(i)
                    },
                },
            )
        } else {
            (
                tasks,
                Outcome {
                    status: Status::TaskNotFound,
                    refresh_menu: true,
                    surface: SurfaceChange::Keep,
                },
            )
        },
        Command::Unpin(i) => if i < tasks.len() {
            (
                tasks.update(i as int, TaskView { pinned: false, ..tasks[i as int] }),
                Outcome {
                    status: Status::Done,
                    refresh_menu: true,
                    surface: SurfaceChange::Remove(i),
                },
            )
        } else {
            (
                tasks,
                Outcome {
                    status: Status::TaskNotFound,
                    refresh_menu: true,
                    surface: SurfaceChange::Keep,
                },
            )
        },
        Command::NewTask | Command::Edit(_) | Command::Quit => (
            tasks,
            Outcome { status: Status::Deferred, refresh_menu: false, surface: SurfaceChange::Keep },
        ),
    }
}

/// Pauses a running task and starts any other, at clock reading `now`. On a
/// clock failure nothing changes.
pub fn toggle_at(task: &mut Task, now: Timestamp) -> (r: Result<()>)
    ensures
        match toggled_at(old(task)@, now@) {
            Some(v) => r is Ok && final(task)@ == v,
            None => r == Err::<(), Error>(Error::SystemTimeError) && *final(task) == *old(task),
        },
{
    if task.is_running {
        task.pause_at(now)
    } else {
        task.start_at(now);
        Ok(())
    }
}

/// Removes the task at `index` and hands it out; every later task moves one
/// place down. An index out of range changes nothing.
pub fn delete_task(tasks: &mut Vec<Task>, index: usize) -> (removed: Option<Task>)
    ensures
        index < old(tasks)@.len() ==> removed == Some(old(tasks)@[index as int]) && final(tasks)@
            == old(tasks)@.remove(index as int),
        index >= old(tasks)@.len() ==> removed is None && final(tasks)@ == old(tasks)@,
{
    if index < tasks.len() {
        Some(tasks.remove(index))
    } else {
        None
    }
}

/// Carries out `command` on the registry at clock reading `now` and reports
/// what the presentation layer has to do.
pub fn execute_at(tasks: &mut Vec<Task>, command: Command, now: Timestamp) -> (outcome: Outcome)
    ensures
        (views(final(tasks)@), outcome) == executed(views(old(tasks)@), command, now@),
{
    let ghost before = tasks@;
    match command {
        Command::Toggle(i) | Command::PinnedToggle(i) => {
            let surface = match command {
                Command::PinnedToggle(_) => SurfaceChange::Refresh(i),
                _ => SurfaceChange::Keep,
            };
            if i < tasks.len() {
                let r = toggle_at(&mut tasks[i], now);
                proof {
                    assert(views(tasks@) =~= views(before).update(i as int, tasks@[i as int]@));
                }
                match r {
                    Ok(()) => Outcome { status: Status::Done, refresh_menu: true, surface },
                    Err(_) => {
                        assert(tasks@ =~= before);
                        Outcome { status: Status::ClockFailed, refresh_menu: true, surface }
                    },
                }
            } else {
                Outcome { status: Status::TaskNotFound, refresh_menu: true, surface }
            }
        },
        Command::Reset(i) | Command::PinnedReset(i) => {
            let surface = match command {
                Command::PinnedReset(_) => SurfaceChange::Refresh(i),
                _ => SurfaceChange::Keep,
            };
            if i < tasks.len() {
                let r = tasks[i].reset_at(now);
                proof {
                    assert(views(tasks@) =~= views(before).update(i as int, tasks@[i as int]@));
                }
                match r {
                    Ok(()) => Outcome { status: Status::Done, refresh_menu: true, surface },
                    Err(_) => {
                        assert(tasks@ =~= before);
                        Outcome { status: Status::ClockFailed, refresh_menu: true, surface }
                    },
                }
            } else {
                Outcome { status: Status::TaskNotFound, refresh_menu: true, surface }
            }
        },
        Command::Delete(i) => {
            match delete_task(tasks, i) {
                Some(_) => {
                    assert(views(tasks@) =~= views(before).remove(i as int));
                    Outcome { status: Status::Done, refresh_menu: true, surface: SurfaceChange::Shift(i) }
                },
                None => Outcome {
                    status: Status::TaskNotFound,
                    refresh_menu: true,
                    surface: SurfaceChange::Keep,
                },
            }
        },
        Command::Pin(i) => {
            if i < tasks.len() {
                let was: bool = tasks[i].pinned;
                tasks[i].pinned = !was;
                proof {
                    assert(views(tasks@) =~= views(before).update(i as int, tasks@[i as int]@));
                }
                Outcome {
                    status: Status::Done,
                    refresh_menu: true,
                    surface: if was {
                        SurfaceChange::Remove(i)
                    } else {
                        SurfaceChange::Create(i)
                    },
                }
            } else {
                Outcome { status: Status::TaskNotFound, refresh_menu: true, surface: SurfaceChange::Keep }
            }
        },
        Command::Unpin(i) => {
            if i < tasks.len() {
                tasks[i].pinned = false;
                proof {
                    assert(views(tasks@) =~= views(before).update(i as int, tasks@[i as int]@));
                }
                Outcome { status: Status::Done, refresh_menu: true, surface: SurfaceChange::Remove(i) }
            } else {
                Outcome { status: Status::TaskNotFound, refresh_menu: true, surface: SurfaceChange::Keep }
            }
        },
        Command::NewTask | Command::Edit(_) | Command::Quit => Outcome {
            status: Status::Deferred,
            refresh_menu: false,
            surface: SurfaceChange::Keep,
        },
    }
}

/// Carries out `command` on the registry at one reading of the system clock.
pub fn execute(tasks: &mut Vec<Task>, command: Command) -> (outcome: Outcome)
    ensures
        exists|now: int|
            (views(final(tasks)@), outcome) == #[trigger] executed(views(old(tasks)@), command, now),
{
    let now = Timestamp::now();
    execute_at(tasks, command, now)
}

/// Removing the element at `index` leaves one element fewer, keeps every
/// element before `index` in its place and moves every later one down by one.
pub proof fn lemma_delete_shifts_later_tasks<T>(tasks: Seq<T>, index: int)
    requires
        0 <= index < tasks.len(),
    ensures
        tasks.remove(index).len() == tasks.len() - 1,
        forall|j: int| 0 <= j < index ==> tasks.remove(index)[j] == tasks[j],
        forall|j: int| index < j < tasks.len() ==> tasks.remove(index)[j - 1] == tasks[j],
{
}

} // verus!
