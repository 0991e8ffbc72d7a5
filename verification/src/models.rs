//! Domain model: task status and priority, calendar dates, tasks, and the
//! gamified user profile.

use vstd::prelude::*;

use crate::sys::{fresh_task_id, now_info};

verus! {

/// Workflow state of a task.
#[derive(PartialEq, Eq, Structural, Clone, Copy, Debug)]
pub enum TaskStatus {
    Todo,
    Doing,
    Done,
}

/// Urgency of a task.
#[derive(PartialEq, Eq, Structural, Clone, Copy, Debug)]
pub enum TaskPriority {
    Low,
    Medium,
    High,
}

/// A calendar date (proleptic Gregorian), held as plain fields.
#[derive(PartialEq, Eq, Structural, Clone, Copy, Debug)]
pub struct Date {
    pub year: i32,
    pub month: u8,
    pub day: u8,
}

/// A leap year in the Gregorian calendar.
pub open spec fn spec_is_leap_year(y: int) -> bool {
    y % 4 == 0 && (y % 100 != 0 || y % 400 == 0)
}

/// Number of days in the given month of the given year.
pub open spec fn spec_days_in_month(y: int, m: int) -> int {
    if m == 2 {
        if spec_is_leap_year(y) {
            29
        } else {
            28
        }
    } else if m == 4 || m == 6 || m == 9 || m == 11 {
        30
    } else {
        31
    }
}

/// A real calendar date: month and day are in range for the year.
pub open spec fn valid_ymd(y: int, m: int, d: int) -> bool {
    &&& 1 <= m <= 12
    &&& 1 <= d <= spec_days_in_month(y, m)
}

impl Date {
    /// A real calendar date.
    pub open spec fn valid(self) -> bool {
        valid_ymd(self.year as int, self.month as int, self.day as int)
    }

    /// A date that can also be rendered as a four-digit year: the shape
    /// accepted by the date parser.
    pub open spec fn wf(self) -> bool {
        self.valid() && 0 <= self.year <= 9999
    }

    /// Lexicographic order on (year, month, day).
    pub open spec fn spec_lt(self, other: Date) -> bool {
        ||| self.year < other.year
        ||| (self.year == other.year && self.month < other.month)
        ||| (self.year == other.year && self.month == other.month && self.day < other.day)
    }

    /// Compares two dates chronologically.
    pub fn lt(&self, other: &Date) -> (r: bool)
        ensures
            r == self.spec_lt(*other),
    {
        if self.year != other.year {
            self.year < other.year
        } else if self.month != other.month {
            self.month < other.month
        } else {
            self.day < other.day
        }
    }
}

/// One unit of work.
pub struct Task {
    pub id: String,
    pub title: String,
    pub description: String,
    pub status: TaskStatus,
    pub priority: TaskPriority,
    pub xp_reward: i32,
    pub due_date: Option<Date>,
    pub created_at: i64,
    pub completed_at: Option<Date>,
}

impl Task {
    /// Structural invariant of a task: the completion day is recorded exactly
    /// when the task is done, the reward is not negative, and any dates held
    /// are real calendar dates.
    pub open spec fn valid(self) -> bool {
        &&& self.completed_at is Some <==> self.status is Done
        &&& self.xp_reward >= 0
        &&& match self.due_date {
            Some(d) => d.wf(),
            None => true,
        }
        &&& match self.completed_at {
            Some(d) => d.valid(),
            None => true,
        }
    }
}

/// The singleton gamification record.
#[derive(PartialEq, Eq, Structural, Clone, Copy, Debug)]
pub struct UserProfile {
    pub id: i32,
    pub level: i32,
    pub current_xp: i32,
    pub next_level_xp: i32,
}

impl UserProfile {
    /// Invariant of the profile: the level is at least 1 and the accumulated
    /// experience sits below the next threshold, which never shrinks under
    /// its initial value.
    pub open spec fn valid(self) -> bool {
        &&& 1 <= self.level
        &&& 0 <= self.current_xp < self.next_level_xp
        &&& 100 <= self.next_level_xp
    }

    /// The fresh profile: level 1, no experience, first threshold at 100.
    pub fn default() -> (r: UserProfile)
        ensures
            r == (UserProfile { id: 1, level: 1, current_xp: 0, next_level_xp: 100 }),
            r.valid(),
    {
        UserProfile { id: 1, level: 1, current_xp: 0, next_level_xp: 100 }
    }
}

impl Task {
    /// A freshly captured task: Todo, not completed, with a new identifier
    /// and the current second as its creation stamp.
    pub fn new(
        title: String,
        description: String,
        priority: TaskPriority,
        xp_reward: i32,
        due_date: Option<Date>,
    ) -> (r: Task)
        requires
            xp_reward >= 0,
            due_date matches Some(d) ==> d.wf(),
        ensures
            r.title@ == title@,
            r.description@ == description@,
            r.status is Todo,
            r.priority == priority,
            r.xp_reward == xp_reward,
            r.due_date == due_date,
            r.completed_at is None,
            r.id@.len() == 36,
            r.valid(),
    {
        let id = fresh_task_id();
        let now = now_info();
        Task {
            id,
            title,
            description,
            status: TaskStatus::Todo,
            priority,
            xp_reward,
            due_date,
            created_at: now.secs,
            completed_at: None,
        }
    }

    /// A field-for-field copy of the task.
    pub fn dup(&self) -> (r: Task)
        ensures
            r == *self,
    {
        Task {
            id: self.id.clone(),
            title: self.title.clone(),
            description: self.description.clone(),
            status: self.status,
            priority: self.priority,
            xp_reward: self.xp_reward,
            due_date: self.due_date,
            created_at: self.created_at,
            completed_at: self.completed_at,
        }
    }
}

/// One step of the level-up rule: while the accumulated experience reaches
/// the threshold, spend the threshold, gain a level, and grow the threshold
/// by half its value (the integer form of multiplying by 1.5).
pub open spec fn spec_xp_cascade(level: int, cx: int, nlx: int) -> (int, int, int)
    decreases cx
        when 1 <= nlx && 0 <= cx
{
    if cx < nlx {
        (level, cx, nlx)
    } else {
        spec_xp_cascade(level + 1, cx - nlx, nlx + nlx / 2)
    }
}

/// The level-up cascade crosses as many thresholds as the award covers:
/// the level never drops, it rises whenever the award reaches the current
/// threshold, the threshold never shrinks, and the remaining experience ends
/// in `[0, new threshold)`.
pub proof fn lemma_xp_cascade_properties(level: int, cx: int, nlx: int)
    requires
        0 <= cx,
        100 <= nlx,
    ensures
        ({
            let (l, c, x) = spec_xp_cascade(level, cx, nlx);
            &&& 0 <= c < x
            &&& x >= nlx
            &&& 100 <= x
            &&& l >= level
            &&& (cx >= nlx ==> l >= level + 1)
            &&& (cx < nlx ==> (l, c, x) == (level, cx, nlx))
        }),
    decreases cx,
{
    if cx >= nlx {
        lemma_xp_cascade_properties(level + 1, cx - nlx, nlx + nlx / 2);
    }
}

impl UserProfile {
    /// Awards experience and applies the level-up cascade. When the cascade
    /// result does not fit the record's fields the profile is left unchanged.
    pub fn add_xp(&mut self, amount: i32)
        requires
            old(self).valid(),
            0 <= amount,
        ensures
            final(self).valid(),
            final(self).id == old(self).id,
            ({
                let (l, c, x) = spec_xp_cascade(
                    old(self).level as int,
                    old(self).current_xp + amount,
                    old(self).next_level_xp as int,
                );
                if l <= i32::MAX && x <= i32::MAX {
                    final(self).level == l && final(self).current_xp == c
                        && final(self).next_level_xp == x
                } else {
                    *final(self) == *old(self)
                }
            }),
    {
        let ghost pre = *self;
        let ghost total0: int = self.current_xp + amount;
        let mut level: i64 = self.level as i64;
        let mut cx: i64 = self.current_xp as i64 + amount as i64;
        let mut nlx: i64 = self.next_level_xp as i64;
        proof {
            lemma_xp_cascade_properties(pre.level as int, total0, pre.next_level_xp as int);
        }
        while cx >= nlx
            invariant
                0 <= cx <= total0,
                total0 <= 0x1_0000_0000i64,
                100 <= nlx <= 0x1_8000_0000i64,
                pre.level <= level,
                100 * (level - pre.level) <= total0 - cx,
                spec_xp_cascade(level as int, cx as int, nlx as int) == spec_xp_cascade(
                    pre.level as int,
                    total0,
                    pre.next_level_xp as int,
                ),
            decreases cx,
        {
            cx = cx - nlx;
            level = level + 1;
            nlx = nlx + nlx / 2;
        }
        let (l, c, x) = (level, cx, nlx);
        if l <= i32::MAX as i64 && x <= i32::MAX as i64 {
            self.level = l as i32;
            self.current_xp = c as i32;
            self.next_level_xp = x as i32;
        }
    }
}

/// The status a toggle moves a task to: Todo -> Doing -> Done -> Todo.
pub open spec fn spec_next_status(s: TaskStatus) -> TaskStatus {
    match s {
        TaskStatus::Todo => TaskStatus::Doing,
        TaskStatus::Doing => TaskStatus::Done,
        TaskStatus::Done => TaskStatus::Todo,
    }
}

impl TaskStatus {
    /// The display and storage label of the status.
    pub fn label(&self) -> (r: &'static str)
        ensures
            *self is Todo ==> r@ =~= "TODO"@,
            *self is Doing ==> r@ =~= "DOING"@,
            *self is Done ==> r@ =~= "DONE"@,
    {
        match self {
            TaskStatus::Todo => "TODO",
            TaskStatus::Doing => "DOING",
            TaskStatus::Done => "DONE",
        }
    }

    /// Advances the status one step along the cycle Todo -> Doing -> Done -> Todo.
    pub fn next(&self) -> (r: TaskStatus)
        ensures
            r == spec_next_status(*self),
    {
        match self {
            TaskStatus::Todo => TaskStatus::Doing,
            TaskStatus::Doing => TaskStatus::Done,
            TaskStatus::Done => TaskStatus::Todo,
        }
    }
}

/// Toggling a task's status three times returns it to where it started.
pub proof fn lemma_status_toggle_idempotent(s: TaskStatus)
    ensures
        spec_next_status(spec_next_status(spec_next_status(s))) == s,
{
}

} // verus!
