use time_ticker::error::{system_time_to_duration, Error};
use time_ticker::task::{Task, TaskType};
use time_ticker::time::{TimeSpan, Timestamp};

const SEC: u128 = 1_000_000_000;

fn at(secs: u128) -> Timestamp {
    Timestamp::from_unix_nanos(secs * SEC)
}

fn duration_task(secs: u64) -> Task {
    Task::new("study".to_string(), TaskType::Duration(TimeSpan::from_secs(secs))).unwrap()
}

#[test]
fn new_duration_task_has_its_full_length() {
    let task = duration_task(1800);
    assert_eq!(task.get_remaining_time(), Ok(TimeSpan::from_secs(1800)));
    assert_eq!(task.name, "study");
    assert!(!task.is_running);
    assert_eq!(task.start_time, None);
    assert!(!task.pinned);
}

#[test]
fn new_deadline_task_counts_down_to_the_deadline() {
    let task = Task::new_at("work".to_string(), TaskType::Deadline(at(5000)), at(1400)).unwrap();
    assert_eq!(task.remaining, TimeSpan::from_secs(3600));
    assert_eq!(task.remaining_at(at(2000)), Ok(TimeSpan::from_secs(3000)));
    assert_eq!(task.remaining_at(at(6000)), Ok(TimeSpan::zero()));
}

#[test]
fn new_deadline_task_reads_the_clock() {
    let deadline = Timestamp::now().checked_add(TimeSpan::from_secs(3600)).unwrap();
    let task = Task::new("work".to_string(), TaskType::Deadline(deadline)).unwrap();
    assert!(task.remaining.as_nanos() <= TimeSpan::from_secs(3600).as_nanos());
    assert!(task.remaining.as_secs() >= 3590);
    let left = task.get_remaining_time().unwrap();
    assert!(left.as_nanos() <= task.remaining.as_nanos());
}

#[test]
fn deadline_before_the_epoch_is_a_clock_error() {
    let r = Task::new_at(
        "old".to_string(),
        TaskType::Deadline(Timestamp::before_unix_nanos(1)),
        at(10),
    );
    assert_eq!(r.err(), Some(Error::SystemTimeError));
    let r = Task::new_at("old".to_string(), TaskType::Deadline(at(10)), Timestamp::before_unix_nanos(5));
    assert_eq!(r.err(), Some(Error::SystemTimeError));
    assert!(Task::new("old".to_string(), TaskType::Deadline(Timestamp::before_unix_nanos(7))).is_err());
}

#[test]
fn start_twice_is_start_once() {
    let mut task = duration_task(60);
    task.start_at(at(100));
    let first = task.clone();
    task.start_at(at(200));
    assert_eq!(task.is_running, first.is_running);
    assert_eq!(task.start_time, first.start_time);
    assert_eq!(task.start_time, Some(at(100)));
    assert_eq!(task.remaining, first.remaining);

    let mut live = duration_task(60);
    live.start();
    let started = live.start_time;
    assert!(started.is_some());
    live.start();
    assert_eq!(live.start_time, started);
    assert!(live.is_running);
}

#[test]
fn pause_commits_the_elapsed_time() {
    let mut task = duration_task(60);
    task.start_at(at(100));
    assert_eq!(task.remaining_at(at(110)), Ok(TimeSpan::from_secs(50)));
    assert_eq!(task.remaining, TimeSpan::from_secs(60));
    assert_eq!(task.pause_at(Timestamp::from_unix_nanos(110 * SEC + 500)), Ok(()));
    assert!(!task.is_running);
    assert_eq!(task.start_time, None);
    assert_eq!(task.remaining, TimeSpan::from_nanos(50 * SEC - 500));
    assert_eq!(task.remaining_at(at(500)), Ok(TimeSpan::from_nanos(50 * SEC - 500)));
}

#[test]
fn pause_floors_at_zero() {
    let mut task = duration_task(60);
    task.start_at(at(100));
    assert_eq!(task.remaining_at(at(1000)), Ok(TimeSpan::zero()));
    assert_eq!(task.pause_at(at(1000)), Ok(()));
    assert_eq!(task.remaining, TimeSpan::zero());
    task.start_at(at(2000));
    assert_eq!(task.pause_at(at(3000)), Ok(()));
    assert_eq!(task.remaining, TimeSpan::zero());
}

#[test]
fn pause_of_a_paused_task_changes_nothing() {
    let mut task = duration_task(60);
    assert_eq!(task.pause_at(at(5)), Ok(()));
    assert_eq!(task.remaining, TimeSpan::from_secs(60));
    assert_eq!(task.pause(), Ok(()));
    assert_eq!(task.remaining, TimeSpan::from_secs(60));
    assert!(!task.is_running);
}

#[test]
fn pause_with_the_clock_behind_the_start_leaves_the_task_alone() {
    let mut task = duration_task(60);
    task.start_at(at(100));
    assert_eq!(task.pause_at(at(99)), Err(Error::SystemTimeError));
    assert!(task.is_running);
    assert_eq!(task.start_time, Some(at(100)));
    assert_eq!(task.remaining, TimeSpan::from_secs(60));
    assert_eq!(task.remaining_at(at(99)), Err(Error::SystemTimeError));
}

#[test]
fn pause_start_pause_never_gains_time() {
    let mut task = duration_task(60);
    task.start_at(at(100));
    let before = task.remaining_at(at(110)).unwrap();
    task.pause_at(at(111)).unwrap();
    task.start_at(at(112));
    task.pause_at(at(115)).unwrap();
    let after = task.remaining_at(at(116)).unwrap();
    assert!(after.as_nanos() <= before.as_nanos());
    assert_eq!(after, TimeSpan::from_secs(46));

    let mut live = duration_task(60);
    live.start();
    let before = live.get_remaining_time().unwrap();
    live.pause().unwrap();
    live.start();
    live.pause().unwrap();
    assert!(live.get_remaining_time().unwrap().as_nanos() <= before.as_nanos());
}

#[test]
fn deadline_task_ignores_toggling() {
    let mut task = Task::new_at("work".to_string(), TaskType::Deadline(at(5000)), at(1000)).unwrap();
    let asked = at(2000);
    let expected = Ok(TimeSpan::from_secs(3000));
    assert_eq!(task.remaining_at(asked), expected);
    task.start_at(at(1100));
    assert_eq!(task.remaining_at(asked), expected);
    task.pause_at(at(1500)).unwrap();
    assert_eq!(task.remaining_at(asked), expected);
    task.start_at(at(1600));
    assert_eq!(task.remaining_at(asked), expected);
}

#[test]
fn reset_restores_a_duration_task() {
    let mut task = duration_task(60);
    task.start_at(at(100));
    assert_eq!(task.reset_at(at(130)), Ok(()));
    assert!(!task.is_running);
    assert_eq!(task.start_time, None);
    assert_eq!(task.remaining_at(at(500)), Ok(TimeSpan::from_secs(60)));

    task.start_at(at(600));
    task.pause_at(at(610)).unwrap();
    assert_eq!(task.remaining, TimeSpan::from_secs(50));
    assert_eq!(task.reset(), Ok(()));
    assert_eq!(task.get_remaining_time(), Ok(TimeSpan::from_secs(60)));
}

#[test]
fn reset_of_a_deadline_task_measures_anew() {
    let mut task = Task::new_at("work".to_string(), TaskType::Deadline(at(5000)), at(1000)).unwrap();
    task.start_at(at(1100));
    assert_eq!(task.reset_at(at(4000)), Ok(()));
    assert_eq!(task.remaining, TimeSpan::from_secs(1000));
    assert!(!task.is_running);
    assert_eq!(task.reset_at(at(9000)), Ok(()));
    assert_eq!(task.remaining, TimeSpan::zero());
}

#[test]
fn reset_on_a_clock_failure_leaves_the_task_alone() {
    let mut task = Task::new_at("work".to_string(), TaskType::Deadline(at(5000)), at(1000)).unwrap();
    task.start_at(at(1100));
    assert_eq!(task.reset_at(Timestamp::before_unix_nanos(3)), Err(Error::SystemTimeError));
    assert!(task.is_running);
    assert_eq!(task.start_time, Some(at(1100)));
    assert_eq!(task.remaining, TimeSpan::from_secs(4000));
}

#[test]
fn system_time_to_duration_measures_from_the_epoch() {
    assert_eq!(system_time_to_duration(at(12)), Ok(TimeSpan::from_secs(12)));
    assert_eq!(system_time_to_duration(Timestamp::from_unix_nanos(0)), Ok(TimeSpan::zero()));
    assert_eq!(system_time_to_duration(Timestamp::before_unix_nanos(0)), Ok(TimeSpan::zero()));
    assert_eq!(
        system_time_to_duration(Timestamp::before_unix_nanos(1)),
        Err(Error::SystemTimeError)
    );
}

#[test]
fn the_clock_reads_after_the_epoch_and_moves_on() {
    let a = Timestamp::now();
    let b = Timestamp::now();
    assert!(!a.before_epoch);
    assert!(a.offset.as_secs() > 1_600_000_000);
    assert!(b.duration_since(a).is_ok());
    let known = std::time::UNIX_EPOCH + std::time::Duration::new(77, 5);
    assert_eq!(Timestamp::from_system_time(known), Timestamp::from_unix_nanos(77 * SEC + 5));
    let early = std::time::UNIX_EPOCH - std::time::Duration::new(3, 0);
    assert_eq!(Timestamp::from_system_time(early), Timestamp::before_unix_nanos(3 * SEC));
}

#[test]
fn time_arithmetic() {
    assert_eq!(TimeSpan::from_secs(2).as_nanos(), 2 * SEC);
    assert_eq!(TimeSpan::from_nanos(2 * SEC + 999_999_999).as_secs(), 2);
    assert_eq!(TimeSpan::from_secs(5).saturating_sub(TimeSpan::from_secs(7)), TimeSpan::zero());
    assert_eq!(TimeSpan::from_secs(7).saturating_sub(TimeSpan::from_secs(5)), TimeSpan::from_secs(2));
    assert_eq!(TimeSpan::from_nanos(u128::MAX).checked_add(TimeSpan::from_nanos(1)), None);
    assert_eq!(at(10).duration_since(at(4)), Ok(TimeSpan::from_secs(6)));
    assert_eq!(at(4).duration_since(at(10)), Err(Error::SystemTimeError));
    assert_eq!(at(4).duration_since(Timestamp::before_unix_nanos(SEC)), Ok(TimeSpan::from_secs(5)));
    assert_eq!(
        Timestamp::before_unix_nanos(SEC).duration_since(Timestamp::before_unix_nanos(3 * SEC)),
        Ok(TimeSpan::from_secs(2))
    );
    assert_eq!(
        Timestamp::before_unix_nanos(3 * SEC).checked_add(TimeSpan::from_secs(5)),
        Some(at(2))
    );
    assert!(TimeSpan::zero().is_zero());
}
