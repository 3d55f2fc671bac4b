use taskbook::calendar::{CivilDate, LocalNow};
use taskbook::task::{clamp_priority, parse_task_state, task_state_name, Task, TaskState};

#[test]
fn test_task_is_task_uses_flag() {
    let task = Task::new(1, "Test".to_string(), vec!["My Board".to_string()], 1);
    assert!(task.is_task());
    assert!(task.is_task_flag);
}

#[test]
fn test_priority_clamped_to_range() {
    let low = Task::new(1, "Test".to_string(), vec!["My Board".to_string()], 0);
    assert_eq!(low.priority, 1);

    let high = Task::new(2, "Test".to_string(), vec!["My Board".to_string()], 255);
    assert_eq!(high.priority, 3);

    let mid = Task::new(3, "Test".to_string(), vec!["My Board".to_string()], 2);
    assert_eq!(mid.priority, 2);
}

#[test]
fn new_task_starts_pending_and_unstarred() {
    let task = Task::new(7, "Write".to_string(), vec!["b".to_string()], 2);
    assert_eq!(task.id(), 7);
    assert_eq!(task.description(), "Write");
    assert_eq!(task.boards(), &["b".to_string()][..]);
    assert!(task.tags().is_empty());
    assert!(!task.is_starred());
    assert_eq!(task.state(), TaskState::Pending);
    assert_eq!(task.due_date, None);
    assert!(task.timestamp() > 0);
    // The creation date reads like `Fri Jun 12 2026`.
    assert_eq!(task.date().split(' ').count(), 4);
    assert_eq!(task.date(), chrono::Local::now().format("%a %b %d %Y").to_string());
}

#[test]
fn with_due_date_sets_only_the_due_date() {
    let task = Task::new(1, "T".to_string(), vec!["My Board".to_string()], 1);
    let stamp = task.timestamp;
    let due = task.with_due_date(Some(1_790_000_000_000));
    assert_eq!(due.due_date, Some(1_790_000_000_000));
    assert_eq!(due.timestamp, stamp);
    let cleared = due.with_due_date(None);
    assert_eq!(cleared.due_date, None);
    assert_eq!(cleared.description, "T");
}

#[test]
fn new_with_tags_keeps_the_tags() {
    let task = Task::new_with_tags(
        4,
        "Tagged".to_string(),
        vec!["work".to_string()],
        9,
        vec!["a".to_string(), "b".to_string()],
    );
    assert_eq!(task.tags, vec!["a".to_string(), "b".to_string()]);
    assert_eq!(task.priority, 3);
    assert_eq!(task.id, 4);
}

#[test]
fn clamp_keeps_valid_priorities() {
    assert_eq!(clamp_priority(0), 1);
    assert_eq!(clamp_priority(1), 1);
    assert_eq!(clamp_priority(2), 2);
    assert_eq!(clamp_priority(3), 3);
    assert_eq!(clamp_priority(4), 3);
}

#[test]
fn setting_a_state_reads_back() {
    let mut task = Task::new(1, "T".to_string(), vec!["My Board".to_string()], 1);
    for s in [TaskState::Done, TaskState::InProgress, TaskState::Pending, TaskState::Done, TaskState::Done] {
        task.set_state(s);
        assert_eq!(task.state(), s);
    }
    task.set_state(TaskState::InProgress);
    assert!(task.in_progress && !task.is_complete);
}

#[test]
fn state_names_round_trip() {
    for s in [TaskState::Pending, TaskState::InProgress, TaskState::Done] {
        assert_eq!(parse_task_state(task_state_name(s)), Ok(s));
    }
    assert_eq!(
        parse_task_state("finished"),
        Err("invalid state 'finished' (use pending, in_progress or done)".to_string())
    );
    assert!(parse_task_state("Done").is_err());
}

#[test]
fn tasks_made_at_a_reading_carry_its_date_and_instant() {
    let now = LocalNow { secs: 1_781_222_400, nanos: 123_000_000, today: CivilDate { year: 2026, month: 6, day: 12 } };
    let plain = Task::new_at(4, "Plan".to_string(), vec!["b".to_string()], 9, &now);
    assert_eq!(plain.date(), "Fri Jun 12 2026");
    assert_eq!(plain.timestamp(), 1_781_222_400_123);
    assert_eq!(plain.priority, 3);
    let tagged = Task::new_with_tags_at(4, "Plan".to_string(), vec!["b".to_string()], 9, vec!["x".to_string()], &now);
    assert_eq!(tagged.tags, vec!["x".to_string()]);
    assert_eq!((tagged.date(), tagged.timestamp(), tagged.priority), (plain.date(), plain.timestamp(), plain.priority));
}
