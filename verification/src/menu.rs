//! What the menus hold: the entries of a task's submenu and of its own
//! display surface, their captions, and the tooltip over all tasks.

use vstd::prelude::*;
use vstd::string::StringExecFns;
use crate::action::{views, Command};
use crate::display::{
    clock_face, control_caption, format_short_time, short_face, task_caption, whole_secs,
};
use crate::error::{Error, Result};
use crate::task::{KindView, Task, TaskType, TaskView};
use crate::time::Timestamp;

verus! {

/// One line of a menu.
#[derive(Clone, Copy, Debug, PartialEq, Eq, Structural)]
pub enum MenuEntry {
    /// A dividing line.
    Separator,
    /// The task's caption, shown and not clickable.
    TimeLabel,
    /// A clickable entry that stands for a command.
    Action(Command),
}

/// The entries of the submenu of the task at `index`: the controls of a
/// duration task, then what every task offers.
pub open spec fn task_menu_entries(index: usize, kind: KindView) -> Seq<MenuEntry> {
    let common = seq![
        MenuEntry::Separator,
        MenuEntry::Action(Command::NewTask),
        MenuEntry::Action(Command::Edit(index)),
        MenuEntry::Action(Command::Delete(index)),
        MenuEntry::Action(Command::Pin(index)),
    ];
    match kind {
        KindView::Duration(_) => seq![
            MenuEntry::Action(Command::Toggle(index)),
            MenuEntry::Action(Command::Reset(index)),
        ] + common,
        KindView::Deadline(_) => common,
    }
}

/// The entries of the menu on the own display surface of the task at
/// `index`: its caption, the controls of a duration task, and the way back.
pub open spec fn pinned_menu_entries(index: usize, kind: KindView) -> Seq<MenuEntry> {
    let head = seq![MenuEntry::TimeLabel, MenuEntry::Separator];
    let tail = seq![MenuEntry::Separator, MenuEntry::Action(Command::Unpin(index))];
    match kind {
        KindView::Duration(_) => head + seq![
            MenuEntry::Action(Command::PinnedToggle(index)),
            MenuEntry::Action(Command::PinnedReset(index)),
        ] + tail,
        KindView::Deadline(_) => head + tail,
    }
}

/// The entries of the submenu of the task at `index`.
pub fn task_menu(index: usize, task_type: &TaskType) -> (r: Vec<MenuEntry>)
    ensures
        r@ == task_menu_entries(index, task_type@),
{
    let mut entries: Vec<MenuEntry> = Vec::new();
    match task_type {
        TaskType::Duration(_) => {
            entries.push(MenuEntry::Action(Command::Toggle(index)));
            entries.push(MenuEntry::Action(Command::Reset(index)));
        },
        TaskType::Deadline(_) => {},
    }
    entries.push(MenuEntry::Separator);
    entries.push(MenuEntry::Action(Command::NewTask));
    entries.push(MenuEntry::Action(Command::Edit(index)));
    entries.push(MenuEntry::Action(Command::Delete(index)));
    entries.push(MenuEntry::Action(Command::Pin(index)));
    assert(entries@ =~= task_menu_entries(index, task_type@));
    entries
}

/// The entries of the menu on the own display surface of the task at `index`.
pub fn pinned_menu(index: usize, task_type: &TaskType) -> (r: Vec<MenuEntry>)
    ensures
        r@ == pinned_menu_entries(index, task_type@),
{
    let mut entries: Vec<MenuEntry> = Vec::new();
    entries.push(MenuEntry::TimeLabel);
    entries.push(MenuEntry::Separator);
    match task_type {
        TaskType::Duration(_) => {
            entries.push(MenuEntry::Action(Command::PinnedToggle(index)));
            entries.push(MenuEntry::Action(Command::PinnedReset(index)));
        },
        TaskType::Deadline(_) => {},
    }
    entries.push(MenuEntry::Separator);
    entries.push(MenuEntry::Action(Command::Unpin(index)));
    assert(entries@ =~= pinned_menu_entries(index, task_type@));
    entries
}

/// The caption of a command's menu entry, for a task that is running or
/// not, pinned or not.
pub open spec fn caption_of(command: Command, running: bool, pinned: bool) -> Seq<char> {
    match command {
        Command::Toggle(_) | Command::PinnedToggle(_) => if running {
            "暂停"@
        } else {
            "开始"@
        },
        Command::Reset(_) | Command::PinnedReset(_) => "重置"@,
        Command::NewTask => "新增"@,
        Command::Edit(_) => "编辑"@,
        Command::Delete(_) => "删除"@,
        Command::Pin(_) => if pinned {
            "取消固定"@
        } else {
            "固定"@
        },
        Command::Unpin(_) => "取消固定"@,
        Command::Quit => "退出"@,
    }
}

/// The caption of a command's menu entry.
pub fn command_caption(command: Command, running: bool, pinned: bool) -> (r: &'static str)
    ensures
        r@ == caption_of(command, running, pinned),
{
    match command {
        Command::Toggle(_) | Command::PinnedToggle(_) => control_caption(running),
        Command::Reset(_) | Command::PinnedReset(_) => "重置",
        Command::NewTask => "新增",
        Command::Edit(_) => "编辑",
        Command::Delete(_) => "删除",
        Command::Pin(_) => if pinned {
            "取消固定"
        } else {
            "固定"
        },
        Command::Unpin(_) => "取消固定",
        Command::Quit => "退出",
    }
}

/// The caption of a task at clock reading `now`: the clock face of the time
/// left, `#`, the name. `None` on a clock failure.
pub open spec fn caption_at(task: TaskView, now: int) -> Option<Seq<char>> {
    match task.remaining_at(now) {
        Some(left) => Some(clock_face(whole_secs(left)) + seq!['#'] + task.name),
        None => None,
    }
}

/// The tooltip over all tasks at clock reading `now`: one line for each task,
/// its caption. `None` where the clock fails any task.
pub open spec fn tooltip_at(tasks: Seq<TaskView>, now: int) -> Option<Seq<char>>
    decreases tasks.len(),
{
    if tasks.len() == 0 {
        Some(Seq::<char>::empty())
    } else {
        match tooltip_at(tasks.drop_last(), now) {
            None => None,
            Some(head) => match caption_at(tasks.last(), now) {
                None => None,
                Some(line) => Some(head + line + seq!['\n']),
            },
        }
    }
}

/// Once the clock fails a task, it fails the tooltip.
proof fn lemma_tooltip_failure_stays(tasks: Seq<TaskView>, now: int, k: int)
    requires
        0 <= k <= tasks.len(),
    ensures
        tooltip_at(tasks.subrange(0, k), now) is None ==> tooltip_at(tasks, now) is None,
    decreases tasks.len(),
{
    if k == tasks.len() {
        assert(tasks.subrange(0, k) == tasks);
    } else {
        assert(tasks.drop_last().subrange(0, k) == tasks.subrange(0, k));
        lemma_tooltip_failure_stays(tasks.drop_last(), now, k);
    }
}

/// The caption of a task at clock reading `now`.
pub fn task_caption_at(task: &Task, now: Timestamp) -> (r: Result<String>)
    ensures
        match caption_at(task@, now@) {
            Some(text) => r is Ok && r->Ok_0@ == text,
            None => r is Err && r->Err_0 == Error::SystemTimeError,
        },
{
    match task.remaining_at(now) {
        Ok(left) => Ok(task_caption(left, task.name.as_str())),
        Err(e) => Err(e),
    }
}

/// The tooltip over all tasks at clock reading `now`.
pub fn registry_tooltip_at(tasks: &Vec<Task>, now: Timestamp) -> (r: Result<String>)
    ensures
        match tooltip_at(views(tasks@), now@) {
            Some(text) => r is Ok && r->Ok_0@ == text,
            None => r is Err && r->Err_0 == Error::SystemTimeError,
        },
{
    let ghost all = views(tasks@);
    let mut out = String::new();
    let mut i: usize = 0;
    proof {
        reveal_strlit("\n");
        assert(all.subrange(0, 0) =~= Seq::<TaskView>::empty());
    }
    while i < tasks.len()
        invariant
            i <= tasks@.len(),
            all == views(tasks@),
            tooltip_at(all.subrange(0, i as int), now@) == Some(out@),
            "\n"@ == seq!['\n'],
        decreases tasks@.len() - i,
    {
        proof {
            let next = all.subrange(0, i + 1);
            assert(next.drop_last() == all.subrange(0, i as int));
            assert(next.last() == tasks@[i as int]@);
            lemma_tooltip_failure_stays(all, now@, i + 1);
        }
        match task_caption_at(&tasks[i], now) {
            Ok(line) => {
                out.append(line.as_str());
                out.append("\n");
            },
            Err(e) => { return Err(e); },
        }
        i += 1;
    }
    assert(all.subrange(0, tasks@.len() as int) == all);
    Ok(out)
}

/// The tooltip over all tasks at one reading of the system clock.
pub fn registry_tooltip(tasks: &Vec<Task>) -> (r: Result<String>)
    ensures
        exists|now: int|
            match #[trigger] tooltip_at(views(tasks@), now) {
                Some(text) => r is Ok && r->Ok_0@ == text,
                None => r is Err && r->Err_0 == Error::SystemTimeError,
            },
{
    let now = Timestamp::now();
    registry_tooltip_at(tasks, now)
}

/// The texts on a task's own display surface.
pub struct SurfaceTexts {
    /// The minutes and seconds left, shown as the title.
    pub title: String,
    /// The task's caption, shown as tooltip and as the menu's first line.
    pub caption: String,
    /// The caption of the start and pause button; only a duration task has one.
    pub control: Option<&'static str>,
}

/// The texts on a task's own display surface at clock reading `now`, as
/// title, caption and control caption. `None` on a clock failure.
pub open spec fn surface_texts_of(task: TaskView, now: int) -> Option<
    (Seq<char>, Seq<char>, Option<Seq<char>>),
> {
    match task.remaining_at(now) {
        Some(left) => Some(
            (
                short_face(whole_secs(left)),
                clock_face(whole_secs(left)) + seq!['#'] + task.name,
                if task.kind is Duration {
                    Some(
                        if task.running {
                            "暂停"@
                        } else {
                            "开始"@
                        },
                    )
                } else {
                    None
                },
            ),
        ),
        None => None,
    }
}

/// The texts on a task's own display surface at clock reading `now`.
pub fn surface_texts_at(task: &Task, now: Timestamp) -> (r: Result<SurfaceTexts>)
    ensures
        match surface_texts_of(task@, now@) {
            Some((title, caption, control)) => r is Ok && r->Ok_0.title@ == title
                && r->Ok_0.caption@ == caption && match control {
                Some(text) => r->Ok_0.control is Some && r->Ok_0.control->Some_0@ == text,
                None => r->Ok_0.control is None,
            },
            None => r is Err && r->Err_0 == Error::SystemTimeError,
        },
{
    let left = match task.remaining_at(now) {
        Ok(left) => left,
        Err(e) => { return Err(e); },
    };
    let control: Option<&'static str> = match task.task_type {
        TaskType::Duration(_) => Some(control_caption(task.is_running)),
        TaskType::Deadline(_) => None,
    };
    Ok(
        SurfaceTexts {
            title: format_short_time(left),
            caption: task_caption(left, task.name.as_str()),
            control,
        },
    )
}

/// The indices of the pinned tasks, in rising order: the tasks that have a
/// display surface of their own.
pub fn pinned_indices(tasks: &Vec<Task>) -> (r: Vec<usize>)
    ensures
        forall|a: int, b: int| 0 <= a < b < r@.len() ==> r@[a] < r@[b],
        forall|k: int| 0 <= k < r@.len() ==> (#[trigger] r@[k]) < tasks@.len() && tasks@[r@[k] as int].pinned,
        forall|i: int| 0 <= i < tasks@.len() && (#[trigger] tasks@[i]).pinned ==> r@.contains(i as usize),
{
    let mut found: Vec<usize> = Vec::new();
    let mut i: usize = 0;
    while i < tasks.len()
        invariant
            i <= tasks@.len(),
            forall|a: int, b: int| 0 <= a < b < found@.len() ==> found@[a] < found@[b],
            forall|k: int|
                0 <= k < found@.len() ==> (#[trigger] found@[k]) < i && tasks@[found@[k] as int].pinned,
            forall|j: int|
                0 <= j < i && (#[trigger] tasks@[j]).pinned ==> found@.contains(j as usize),
        decreases tasks@.len() - i,
    {
        if tasks[i].pinned {
            let ghost before = found@;
            found.push(i);
            proof {
                assert forall|j: int| 0 <= j < i + 1 && (#[trigger] tasks@[j]).pinned implies found@.contains(
                    j as usize,
                ) by {
                    if j < i {
                        let k = choose|k: int| 0 <= k < before.len() && before[k] == j as usize;
                        assert(found@[k] == j as usize);
                    } else {
                        assert(found@[before.len() as int] == j as usize);
                    }
                }
            }
        }
        i += 1;
    }
    found
}

} // verus!
