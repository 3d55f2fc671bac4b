//! The task item.

use vstd::prelude::*;
use crate::json::text_eq;
use crate::text::concat3;
use crate::calendar::{
    date_label, date_label_text, is_clock_reading, local_now, millis_in_range, now_millis, valid_date, LocalNow,
};

verus! {

/// A task item with completion status and priority.
#[derive(Debug, Clone)]
pub struct Task {
    pub id: u64,
    /// The local creation date, as in `Fri Jun 12 2026`.
    pub date: String,
    /// The creation instant in epoch milliseconds.
    pub timestamp: i64,
    pub is_task_flag: bool,
    pub description: String,
    pub is_starred: bool,
    pub is_complete: bool,
    pub in_progress: bool,
    /// 1 (normal), 2 (medium) or 3 (high).
    pub priority: u8,
    /// The due date in epoch milliseconds, if any.
    pub due_date: Option<i64>,
    pub boards: Vec<String>,
    pub tags: Vec<String>,
}

/// `p` clamped to the range `1..=3`.
pub open spec fn clamped_priority(p: u8) -> u8 {
    if p < 1 {
        1
    } else if p > 3 {
        3
    } else {
        p
    }
}

/// Clamps a priority to the range `1..=3`.
pub fn clamp_priority(p: u8) -> (r: u8)
    ensures
        r == clamped_priority(p),
{
    if p < 1 {
        1
    } else if p > 3 {
        3
    } else {
        p
    }
}

/// A freshly created task has these fields, apart from its creation date
/// and instant and its tags.
pub open spec fn is_fresh_task(t: Task, id: u64, description: Seq<char>, boards: Seq<String>, priority: u8) -> bool {
    &&& t.id == id
    &&& t.is_task_flag
    &&& t.description@ == description
    &&& !t.is_starred
    &&& !t.is_complete
    &&& !t.in_progress
    &&& t.priority == clamped_priority(priority)
    &&& t.due_date is None
    &&& t.boards@ == boards
}

/// `t` is the task that creation at the clock reading `now` makes: the fresh
/// fields, the given tags, the local date of the reading as its label and
/// the instant of the reading as its timestamp.
pub open spec fn made_at(
    t: Task,
    id: u64,
    description: Seq<char>,
    boards: Seq<String>,
    priority: u8,
    tags: Seq<String>,
    now: LocalNow,
) -> bool {
    &&& is_fresh_task(t, id, description, boards, priority)
    &&& t.tags@ == tags
    &&& t.date@ == date_label_text(now.today.year, now.today.month, now.today.day)
    &&& t.timestamp == now_millis(now)
}

impl Task {
    /// Creates a new task stamped with the clock reading `now`. The priority
    /// is clamped silently to the range 1-3.
    pub fn new_at(id: u64, description: String, boards: Vec<String>, priority: u8, now: &LocalNow) -> (t: Task)
        requires
            valid_date(now.today),
            millis_in_range(now_millis(*now)),
        ensures
            made_at(t, id, description@, boards@, priority, Seq::empty(), *now),
    {
        let date = date_label(now.today);
        let timestamp = now.secs * 1000 + (now.nanos / 1_000_000) as i64;
        let t = Task {
            id,
            date,
            timestamp,
            is_task_flag: true,
            description,
            is_starred: false,
            is_complete: false,
            in_progress: false,
            priority: clamp_priority(priority),
            due_date: None,
            boards,
            tags: Vec::new(),
        };
        assert(t.tags@ =~= Seq::<String>::empty());
        t
    }

    /// Creates a new task with tags, stamped with the clock reading `now`.
    pub fn new_with_tags_at(
        id: u64,
        description: String,
        boards: Vec<String>,
        priority: u8,
        tags: Vec<String>,
        now: &LocalNow,
    ) -> (t: Task)
        requires
            valid_date(now.today),
            millis_in_range(now_millis(*now)),
        ensures
            made_at(t, id, description@, boards@, priority, tags@, *now),
    {
        let mut task = Task::new_at(id, description, boards, priority, now);
        task.tags = tags;
        task
    }

    /// Creates a new task, stamped with the current local date and instant.
    /// The priority is clamped silently to the range 1-3.
    pub fn new(id: u64, description: String, boards: Vec<String>, priority: u8) -> (t: Task)
        ensures
            exists|now: LocalNow|
                is_clock_reading(now) && #[trigger] made_at(t, id, description@, boards@, priority, Seq::empty(), now),
    {
        let now = local_now();
        Task::new_at(id, description, boards, priority, &now)
    }

    /// Returns the task with the given due date set (epoch millis).
    pub fn with_due_date(self, due_date: Option<i64>) -> (t: Task)
        ensures
            t == (Task { due_date, ..self }),
    {
        let mut t = self;
        t.due_date = due_date;
        t
    }

    /// Creates a new task with tags, stamped with the current local date and instant.
    pub fn new_with_tags(id: u64, description: String, boards: Vec<String>, priority: u8, tags: Vec<String>) -> (t: Task)
        ensures
            exists|now: LocalNow|
                is_clock_reading(now) && #[trigger] made_at(t, id, description@, boards@, priority, tags@, now),
    {
        let now = local_now();
        Task::new_with_tags_at(id, description, boards, priority, tags, &now)
    }
}

/// A task made with tags at a clock reading is the task made without tags at
/// that reading, with the tags stored as given.
pub proof fn lemma_new_with_tags_is_new_plus_tags(
    plain: Task,
    tagged: Task,
    id: u64,
    description: Seq<char>,
    boards: Seq<String>,
    priority: u8,
    tags: Seq<String>,
    now: LocalNow,
)
    requires
        made_at(plain, id, description, boards, priority, Seq::empty(), now),
        made_at(tagged, id, description, boards, priority, tags, now),
    ensures
        tagged.id == plain.id,
        tagged.date@ == plain.date@,
        tagged.timestamp == plain.timestamp,
        tagged.is_task_flag == plain.is_task_flag,
        tagged.description@ == plain.description@,
        tagged.is_starred == plain.is_starred,
        tagged.is_complete == plain.is_complete,
        tagged.in_progress == plain.in_progress,
        tagged.priority == plain.priority,
        tagged.due_date == plain.due_date,
        tagged.boards@ == plain.boards@,
        tagged.tags@ == tags,
        plain.tags@.len() == 0,
{
}

impl Task {
    pub fn id(&self) -> (r: u64)
        ensures
            r == self.id,
    {
        self.id
    }

    pub fn date(&self) -> (r: &str)
        ensures
            r@ == self.date@,
    {
        self.date.as_str()
    }

    pub fn timestamp(&self) -> (r: i64)
        ensures
            r == self.timestamp,
    {
        self.timestamp
    }

    pub fn description(&self) -> (r: &str)
        ensures
            r@ == self.description@,
    {
        self.description.as_str()
    }

    pub fn is_starred(&self) -> (r: bool)
        ensures
            r == self.is_starred,
    {
        self.is_starred
    }

    pub fn boards(&self) -> (r: &[String])
        ensures
            r@ == self.boards@,
    {
        self.boards.as_slice()
    }

    pub fn tags(&self) -> (r: &[String])
        ensures
            r@ == self.tags@,
    {
        self.tags.as_slice()
    }

    /// Whether the item is a task, as its flag records.
    pub fn is_task(&self) -> (r: bool)
        ensures
            r == self.is_task_flag,
    {
        self.is_task_flag
    }
}

/// The state of a task.
#[derive(Debug, Clone, Copy, PartialEq, Eq, Structural)]
pub enum TaskState {
    Pending,
    InProgress,
    Done,
}

/// The state a task is in: done when complete, else in progress when
/// started, else pending.
pub open spec fn state_of(t: Task) -> TaskState {
    if t.is_complete {
        TaskState::Done
    } else if t.in_progress {
        TaskState::InProgress
    } else {
        TaskState::Pending
    }
}

/// The name of a state: `pending`, `in_progress` or `done`.
pub open spec fn state_name(s: TaskState) -> Seq<char> {
    match s {
        TaskState::Pending => "pending"@,
        TaskState::InProgress => "in_progress"@,
        TaskState::Done => "done"@,
    }
}

/// The state called `name`.
pub open spec fn state_named(name: Seq<char>) -> Option<TaskState> {
    if name == "done"@ {
        Some(TaskState::Done)
    } else if name == "in_progress"@ {
        Some(TaskState::InProgress)
    } else if name == "pending"@ {
        Some(TaskState::Pending)
    } else {
        None
    }
}

pub open spec fn invalid_state_message(name: Seq<char>) -> Seq<char> {
    "invalid state '"@ + name + "' (use pending, in_progress or done)"@
}

/// Reads a state name.
pub fn parse_task_state(name: &str) -> (r: Result<TaskState, String>)
    ensures
        match state_named(name@) {
            Some(s) => r matches Ok(x) && x == s,
            None => r matches Err(m) && m@ == invalid_state_message(name@),
        },
{
    if text_eq(name, "done") {
        Ok(TaskState::Done)
    } else if text_eq(name, "in_progress") {
        Ok(TaskState::InProgress)
    } else if text_eq(name, "pending") {
        Ok(TaskState::Pending)
    } else {
        Err(concat3("invalid state '", name, "' (use pending, in_progress or done)"))
    }
}

/// The name of a state.
pub fn task_state_name(s: TaskState) -> (r: &'static str)
    ensures
        r@ == state_name(s),
{
    match s {
        TaskState::Pending => "pending",
        TaskState::InProgress => "in_progress",
        TaskState::Done => "done",
    }
}

impl Task {
    /// The state the task is in.
    pub fn state(&self) -> (r: TaskState)
        ensures
            r == state_of(*self),
    {
        if self.is_complete {
            TaskState::Done
        } else if self.in_progress {
            TaskState::InProgress
        } else {
            TaskState::Pending
        }
    }

    /// Puts the task in a state (setting it, not toggling it); no other
    /// field changes.
    pub fn set_state(&mut self, s: TaskState)
        ensures
            *final(self) == (Task {
                is_complete: s == TaskState::Done,
                in_progress: s == TaskState::InProgress,
                ..*old(self)
            }),
    {
        self.is_complete = s == TaskState::Done;
        self.in_progress = s == TaskState::InProgress;
    }
}

/// Setting a state is read back: after `set_state(s)` the task is in state
/// `s`, whatever state it was in before, and setting it again changes nothing.
pub proof fn lemma_set_state_reads_back(t: Task, s: TaskState)
    ensures
        state_of(Task { is_complete: s == TaskState::Done, in_progress: s == TaskState::InProgress, ..t }) == s,
{
}

/// Every state is found again under its name.
pub proof fn lemma_state_name_round_trip(s: TaskState)
    ensures
        state_named(state_name(s)) == Some(s),
{
    reveal_strlit("done");
    reveal_strlit("in_progress");
    reveal_strlit("pending");
    assert("done"@.len() == 4);
    assert("in_progress"@.len() == 11);
    assert("pending"@.len() == 7);
}

/// A clamped priority lies in `1..=3`, and a priority already there is kept.
pub proof fn lemma_priority_clamped(p: u8)
    ensures
        1 <= clamped_priority(p) <= 3,
        1 <= p <= 3 ==> clamped_priority(p) == p,
        p < 1 ==> clamped_priority(p) == 1,
        p > 3 ==> clamped_priority(p) == 3,
{
}

/// Setting a due date replaces any earlier one and leaves every other field.
pub proof fn lemma_due_date_overwrites(t: Task, first: Option<i64>, second: Option<i64>)
    ensures
        (Task { due_date: second, ..(Task { due_date: first, ..t }) }) == (Task { due_date: second, ..t }),
{
}

} // verus!
