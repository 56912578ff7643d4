use time_ticker::action::{
    delete_task, dispatch, execute, execute_at, shift_action, shift_index, toggle_at, Command,
    Outcome, Status, SurfaceChange,
};
use time_ticker::error::Error;
use time_ticker::task::{Task, TaskType};
use time_ticker::time::{TimeSpan, Timestamp};

fn at(secs: u128) -> Timestamp {
    Timestamp::from_unix_nanos(secs * 1_000_000_000)
}

fn registry() -> Vec<Task> {
    vec![
        Task::new("a".to_string(), TaskType::Duration(TimeSpan::from_secs(10))).unwrap(),
        Task::new("b".to_string(), TaskType::Duration(TimeSpan::from_secs(20))).unwrap(),
        Task::new_at("c".to_string(), TaskType::Deadline(at(900)), at(100)).unwrap(),
        Task::new("d".to_string(), TaskType::Duration(TimeSpan::from_secs(40))).unwrap(),
    ]
}

fn names(tasks: &Vec<Task>) -> Vec<String> {
    tasks.iter().map(|t| t.name.clone()).collect()
}

#[test]
fn dispatch_decodes_a_verb_with_its_index() {
    assert_eq!(dispatch("toggle_3"), Ok(Command::Toggle(3)));
    assert_eq!(dispatch("reset_0"), Ok(Command::Reset(0)));
    assert_eq!(dispatch("delete_12"), Ok(Command::Delete(12)));
    assert_eq!(dispatch("pin_7"), Ok(Command::Pin(7)));
    assert_eq!(dispatch("unpin_7"), Ok(Command::Unpin(7)));
    assert_eq!(dispatch("pinned_toggle_2"), Ok(Command::PinnedToggle(2)));
    assert_eq!(dispatch("pinned_reset_2"), Ok(Command::PinnedReset(2)));
    assert_eq!(dispatch("edit_5"), Ok(Command::Edit(5)));
    assert_eq!(dispatch("toggle_007"), Ok(Command::Toggle(7)));
    assert_eq!(dispatch("toggle_+4"), Ok(Command::Toggle(4)));
}

#[test]
fn dispatch_decodes_the_bare_verbs() {
    assert_eq!(dispatch("quit"), Ok(Command::Quit));
    assert_eq!(dispatch("new_task"), Ok(Command::NewTask));
}

#[test]
fn dispatch_rejects_a_bad_index() {
    assert_eq!(dispatch("toggle_abc"), Err(Error::ParseActionIndex));
    assert_eq!(dispatch("toggle_"), Err(Error::ParseActionIndex));
    assert_eq!(dispatch("toggle_-1"), Err(Error::ParseActionIndex));
    assert_eq!(dispatch("reset_1 "), Err(Error::ParseActionIndex));
    assert_eq!(dispatch("pin_1_2"), Err(Error::ParseActionIndex));
    assert_eq!(
        dispatch("delete_99999999999999999999999999"),
        Err(Error::ParseActionIndex)
    );
}

#[test]
fn dispatch_rejects_an_unknown_verb() {
    assert_eq!(dispatch("frobnicate"), Err(Error::InvalidActionFormat));
    assert_eq!(dispatch(""), Err(Error::InvalidActionFormat));
    assert_eq!(dispatch("toggle"), Err(Error::InvalidActionFormat));
    assert_eq!(dispatch("quit_1"), Err(Error::InvalidActionFormat));
    assert_eq!(dispatch("Toggle_1"), Err(Error::InvalidActionFormat));
    assert_eq!(dispatch("dock_show"), Err(Error::InvalidActionFormat));
}

#[test]
fn delete_shifts_later_tasks_down() {
    let mut tasks = registry();
    let removed = delete_task(&mut tasks, 1);
    assert_eq!(removed.map(|t| t.name), Some("b".to_string()));
    assert_eq!(tasks.len(), 3);
    assert_eq!(names(&tasks), vec!["a", "c", "d"]);
    assert_eq!(tasks[1].remaining, TimeSpan::from_secs(800));
    assert_eq!(tasks[2].remaining, TimeSpan::from_secs(40));
}

#[test]
fn delete_out_of_range_changes_nothing() {
    let mut tasks = registry();
    assert!(delete_task(&mut tasks, 4).is_none());
    assert_eq!(names(&tasks), vec!["a", "b", "c", "d"]);
    let outcome = execute_at(&mut tasks, Command::Delete(9), at(0));
    assert_eq!(
        outcome,
        Outcome { status: Status::TaskNotFound, refresh_menu: true, surface: SurfaceChange::Keep }
    );
    assert_eq!(tasks.len(), 4);
}

#[test]
fn execute_delete_removes_the_task() {
    let mut tasks = registry();
    let outcome = execute_at(&mut tasks, Command::Delete(0), at(0));
    assert_eq!(
        outcome,
        Outcome { status: Status::Done, refresh_menu: true, surface: SurfaceChange::Shift(0) }
    );
    assert_eq!(names(&tasks), vec!["b", "c", "d"]);
}

#[test]
fn execute_toggle_starts_then_pauses() {
    let mut tasks = registry();
    let outcome = execute_at(&mut tasks, Command::Toggle(1), at(100));
    assert_eq!(
        outcome,
        Outcome { status: Status::Done, refresh_menu: true, surface: SurfaceChange::Keep }
    );
    assert!(tasks[1].is_running);
    assert_eq!(tasks[1].start_time, Some(at(100)));
    assert!(!tasks[0].is_running);
    let outcome = execute_at(&mut tasks, Command::PinnedToggle(1), at(105));
    assert_eq!(
        outcome,
        Outcome { status: Status::Done, refresh_menu: true, surface: SurfaceChange::Refresh(1) }
    );
    assert!(!tasks[1].is_running);
    assert_eq!(tasks[1].remaining, TimeSpan::from_secs(15));
}

#[test]
fn execute_toggle_reports_a_clock_failure() {
    let mut tasks = registry();
    execute_at(&mut tasks, Command::Toggle(0), at(100));
    let outcome = execute_at(&mut tasks, Command::Toggle(0), at(50));
    assert_eq!(
        outcome,
        Outcome { status: Status::ClockFailed, refresh_menu: true, surface: SurfaceChange::Keep }
    );
    assert!(tasks[0].is_running);
    assert_eq!(tasks[0].remaining, TimeSpan::from_secs(10));
}

#[test]
fn execute_on_a_missing_task_is_a_no_op() {
    let mut tasks = registry();
    for command in [
        Command::Toggle(4),
        Command::Reset(4),
        Command::Pin(4),
        Command::Unpin(4),
    ] {
        let outcome = execute_at(&mut tasks, command, at(1));
        assert_eq!(outcome.status, Status::TaskNotFound);
        assert_eq!(outcome.surface, SurfaceChange::Keep);
        assert!(outcome.refresh_menu);
    }
    let outcome = execute_at(&mut tasks, Command::PinnedReset(4), at(1));
    assert_eq!(outcome.status, Status::TaskNotFound);
    assert_eq!(outcome.surface, SurfaceChange::Refresh(4));
    assert_eq!(names(&tasks), vec!["a", "b", "c", "d"]);
    assert!(tasks.iter().all(|t| !t.is_running && !t.pinned));
}

#[test]
fn execute_reset_restores_the_task() {
    let mut tasks = registry();
    execute_at(&mut tasks, Command::Toggle(3), at(100));
    execute_at(&mut tasks, Command::Toggle(3), at(110));
    assert_eq!(tasks[3].remaining, TimeSpan::from_secs(30));
    let outcome = execute_at(&mut tasks, Command::Reset(3), at(120));
    assert_eq!(outcome.status, Status::Done);
    assert_eq!(tasks[3].remaining, TimeSpan::from_secs(40));
    let outcome = execute_at(&mut tasks, Command::PinnedReset(2), at(400));
    assert_eq!(outcome.surface, SurfaceChange::Refresh(2));
    assert_eq!(tasks[2].remaining, TimeSpan::from_secs(500));
}

#[test]
fn execute_pin_flips_and_unpin_clears() {
    let mut tasks = registry();
    let outcome = execute_at(&mut tasks, Command::Pin(2), at(0));
    assert_eq!(
        outcome,
        Outcome { status: Status::Done, refresh_menu: true, surface: SurfaceChange::Create(2) }
    );
    assert!(tasks[2].pinned);
    let outcome = execute_at(&mut tasks, Command::Pin(2), at(0));
    assert_eq!(outcome.surface, SurfaceChange::Remove(2));
    assert!(!tasks[2].pinned);
    execute_at(&mut tasks, Command::Pin(1), at(0));
    let outcome = execute_at(&mut tasks, Command::Unpin(1), at(0));
    assert_eq!(
        outcome,
        Outcome { status: Status::Done, refresh_menu: true, surface: SurfaceChange::Remove(1) }
    );
    assert!(!tasks[1].pinned);
    let outcome = execute_at(&mut tasks, Command::Unpin(1), at(0));
    assert_eq!(outcome.surface, SurfaceChange::Remove(1));
    assert!(!tasks[1].pinned);
}

#[test]
fn execute_defers_what_the_presentation_layer_does() {
    let mut tasks = registry();
    for command in [Command::NewTask, Command::Quit, Command::Edit(0)] {
        let outcome = execute(&mut tasks, command);
        assert_eq!(
            outcome,
            Outcome { status: Status::Deferred, refresh_menu: false, surface: SurfaceChange::Keep }
        );
    }
    assert_eq!(tasks.len(), 4);
}

#[test]
fn execute_reads_the_clock() {
    let mut tasks = registry();
    let outcome = execute(&mut tasks, Command::Toggle(0));
    assert_eq!(outcome.status, Status::Done);
    assert!(tasks[0].is_running);
    let started = tasks[0].start_time.unwrap();
    assert!(!started.before_epoch);
    assert!(started.offset.as_secs() > 1_600_000_000);
}

#[test]
fn toggle_pauses_a_running_task_and_starts_any_other() {
    let mut task = Task::new("t".to_string(), TaskType::Duration(TimeSpan::from_secs(10))).unwrap();
    assert_eq!(toggle_at(&mut task, at(5)), Ok(()));
    assert!(task.is_running);
    assert_eq!(toggle_at(&mut task, at(4)), Err(Error::SystemTimeError));
    assert!(task.is_running);
    assert_eq!(toggle_at(&mut task, at(8)), Ok(()));
    assert!(!task.is_running);
    assert_eq!(task.remaining, TimeSpan::from_secs(7));
}

#[test]
fn indices_shift_after_a_delete() {
    assert_eq!(shift_index(0, 2), Some(0));
    assert_eq!(shift_index(1, 2), Some(1));
    assert_eq!(shift_index(2, 2), None);
    assert_eq!(shift_index(3, 2), Some(2));
    assert_eq!(shift_index(usize::MAX, 0), Some(usize::MAX - 1));
}

#[test]
fn action_strings_shift_after_a_delete() {
    assert_eq!(shift_action("pinned_toggle_3", 1), Some("pinned_toggle_2".to_string()));
    assert_eq!(shift_action("unpin_10", 9), Some("unpin_9".to_string()));
    assert_eq!(shift_action("pinned_reset_1", 1), None);
    assert_eq!(shift_action("toggle_0", 1), Some("toggle_0".to_string()));
    assert_eq!(shift_action("toggle_007", 9), Some("toggle_007".to_string()));
    assert_eq!(shift_action("toggle_007", 2), Some("toggle_6".to_string()));
    assert_eq!(shift_action("quit", 0), Some("quit".to_string()));
    assert_eq!(shift_action("new_task", 0), Some("new_task".to_string()));
    assert_eq!(shift_action("dock_show", 0), Some("dock_show".to_string()));
    assert_eq!(shift_action("toggle_x", 0), Some("toggle_x".to_string()));
}
