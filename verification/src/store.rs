//! The in-memory task store: the durable truth that the application state
//! machine mutates and re-reads. It keeps the task list sorted newest-first
//! and owns the singleton profile record.

use vstd::prelude::*;

use crate::models::{
    spec_xp_cascade, Date, Task, TaskPriority, TaskStatus, UserProfile,
};
use crate::sys::now_info;

verus! {

/// Tasks ordered newest-created-first.
pub open spec fn sorted_newest_first(s: Seq<Task>) -> bool {
    forall|i: int, j: int| 0 <= i < j < s.len() ==> s[i].created_at >= s[j].created_at
}

/// Index at which a task created at `c` is inserted to keep the list
/// newest-first: before every strictly newer entry and before entries of the
/// same age, so a fresh task lands on top of its peers.
pub open spec fn spec_insert_pos(s: Seq<Task>, c: i64) -> int
    decreases s.len(),
{
    if s.len() == 0 {
        0
    } else if s[0].created_at <= c {
        0
    } else {
        1 + spec_insert_pos(s.drop_first(), c)
    }
}

proof fn lemma_insert_pos_range(s: Seq<Task>, c: i64)
    ensures
        0 <= spec_insert_pos(s, c) <= s.len(),
        forall|j: int| 0 <= j < spec_insert_pos(s, c) ==> s[j].created_at > c,
        spec_insert_pos(s, c) < s.len() ==> s[spec_insert_pos(s, c)].created_at <= c,
    decreases s.len(),
{
    if s.len() > 0 && s[0].created_at > c {
        lemma_insert_pos_range(s.drop_first(), c);
        assert forall|j: int| 0 <= j < spec_insert_pos(s, c) implies s[j].created_at > c by {
            if j > 0 {
                assert(s.drop_first()[j - 1] == s[j]);
                assert(s.drop_first()[j - 1].created_at > c);
            }
        }
    }
}

/// Keeps the tasks whose id differs from the given one.
pub open spec fn remove_pred(id: Seq<char>) -> spec_fn(Task) -> bool {
    |t: Task| t.id@ != id
}

/// The stored list with every task of the given id removed, order kept.
pub open spec fn spec_remove_id(s: Seq<Task>, id: Seq<char>) -> Seq<Task> {
    s.filter(remove_pred(id))
}

/// Two tasks that agree on everything except workflow status and completion.
pub open spec fn content_eq(a: Task, b: Task) -> bool {
    &&& a.id@ == b.id@
    &&& a.title@ == b.title@
    &&& a.description@ == b.description@
    &&& a.priority == b.priority
    &&& a.xp_reward == b.xp_reward
    &&& a.due_date == b.due_date
    &&& a.created_at == b.created_at
}

/// The durable record storage: the full task list, newest first, and the
/// singleton user profile.
pub struct Store {
    tasks: Vec<Task>,
    profile: UserProfile,
}

impl Store {
    /// The stored task list.
    pub closed spec fn tasks_seq(&self) -> Seq<Task> {
        self.tasks@
    }

    /// The stored profile record.
    pub closed spec fn profile_rec(&self) -> UserProfile {
        self.profile
    }

    /// Store invariant: every task is valid, the list is newest-first, and
    /// the profile is a valid gamification record.
    pub open spec fn inv(&self) -> bool {
        &&& forall|i: int|
            0 <= i < self.tasks_seq().len() ==> (#[trigger] self.tasks_seq()[i]).valid()
        &&& sorted_newest_first(self.tasks_seq())
        &&& self.profile_rec().valid()
    }

    /// An empty store with a fresh profile.
    pub fn new() -> (r: Store)
        ensures
            r.inv(),
            r.tasks_seq() == Seq::<Task>::empty(),
            r.profile_rec() == (UserProfile { id: 1, level: 1, current_xp: 0, next_level_xp: 100 }),
    {
        let r = Store { tasks: Vec::new(), profile: UserProfile::default() };
        proof {
            assert(r.tasks@ =~= Seq::<Task>::empty());
        }
        r
    }

    /// Inserts a task at its place in the newest-first order; a task at
    /// least as new as everything stored lands at the top.
    pub fn create_task(&mut self, task: Task)
        requires
            old(self).inv(),
            task.valid(),
        ensures
            final(self).inv(),
            final(self).profile_rec() == old(self).profile_rec(),
            final(self).tasks_seq() == old(self).tasks_seq().insert(
                spec_insert_pos(old(self).tasks_seq(), task.created_at),
                task,
            ),
            final(self).tasks_seq().len() == old(self).tasks_seq().len() + 1,
            0 <= spec_insert_pos(old(self).tasks_seq(), task.created_at) <= old(
                self,
            ).tasks_seq().len(),
            (forall|j: int|
                0 <= j < old(self).tasks_seq().len()
                    ==> (#[trigger] old(self).tasks_seq()[j]).created_at <= task.created_at)
                ==> final(self).tasks_seq()[0] == task,
    {
        let ghost pre = self.tasks@;
        let n = self.tasks.len();
        let mut i: usize = 0;
        while i < n && self.tasks[i].created_at > task.created_at
            invariant
                n == self.tasks@.len(),
                i <= n,
                self.tasks@ == pre,
                forall|j: int| 0 <= j < i ==> pre[j].created_at > task.created_at,
            decreases n - i,
        {
            i = i + 1;
        }
        proof {
            lemma_insert_pos_range(pre, task.created_at);
            if i < n {
                assert(pre[i as int].created_at <= task.created_at);
            }
            assert(spec_insert_pos(pre, task.created_at) == i as int) by {
                let p = spec_insert_pos(pre, task.created_at);
                if p < i as int {
                    assert(pre[p].created_at > task.created_at);
                }
                if p > i as int {
                    assert(pre[i as int].created_at > task.created_at);
                }
            }
        }
        self.tasks.insert(i, task);
        proof {
            let s = self.tasks@;
            assert forall|a: int, b: int| 0 <= a < b < s.len() implies s[a].created_at
                >= s[b].created_at by {
                if a < i as int && b == i as int {
                } else if a == i as int && b > i as int {
                    assert(s[b] == pre[b - 1]);
                    if b - 1 >= i as int {
                        assert(sorted_newest_first(pre));
                    }
                }
            }
        }
    }

    /// Copies the full task list, newest first.
    pub fn get_all_tasks(&self) -> (r: Vec<Task>)
        ensures
            r@ == self.tasks_seq(),
    {
        let mut r: Vec<Task> = Vec::new();
        let mut i: usize = 0;
        while i < self.tasks.len()
            invariant
                i <= self.tasks@.len(),
                r@ =~= self.tasks@.take(i as int),
            decreases self.tasks@.len() - i,
        {
            r.push(self.tasks[i].dup());
            i = i + 1;
            proof {
                assert(r@ =~= self.tasks@.take(i as int));
            }
        }
        proof {
            assert(self.tasks@.take(self.tasks@.len() as int) == self.tasks@);
        }
        r
    }

    /// Reads the singleton profile.
    pub fn get_user_profile(&self) -> (r: UserProfile)
        ensures
            r == self.profile_rec(),
    {
        self.profile
    }

    /// Restores a previously saved profile record, as the bootstrap that
    /// reopens durable storage does.
    pub fn set_profile(&mut self, profile: UserProfile)
        requires
            old(self).inv(),
            profile.valid(),
        ensures
            final(self).inv(),
            final(self).tasks_seq() == old(self).tasks_seq(),
            final(self).profile_rec() == profile,
    {
        self.profile = profile;
    }

    /// Awards experience to the profile, cascading level-ups.
    pub fn add_xp(&mut self, amount: i32)
        requires
            old(self).inv(),
            0 <= amount,
        ensures
            final(self).inv(),
            final(self).tasks_seq() == old(self).tasks_seq(),
            final(self).profile_rec().id == old(self).profile_rec().id,
            ({
                let p = old(self).profile_rec();
                let (l, c, x) = spec_xp_cascade(
                    p.level as int,
                    p.current_xp + amount,
                    p.next_level_xp as int,
                );
                if l <= i32::MAX && x <= i32::MAX {
                    final(self).profile_rec().level == l && final(self).profile_rec().current_xp
                        == c && final(self).profile_rec().next_level_xp == x
                } else {
                    final(self).profile_rec() == p
                }
            }),
    {
        self.profile.add_xp(amount);
    }

    /// Moves every task with the given id to the given status, stamping or
    /// clearing the completion day as the status demands. The date comes
    /// from the wall clock; everything else about the task is untouched.
    pub fn update_task_status(&mut self, id: &String, status: TaskStatus)
        requires
            old(self).inv(),
        ensures
            final(self).inv(),
            final(self).profile_rec() == old(self).profile_rec(),
            final(self).tasks_seq().len() == old(self).tasks_seq().len(),
            forall|j: int|
                0 <= j < old(self).tasks_seq().len() && (#[trigger] old(self).tasks_seq()[j]).id@
                    != id@ ==> final(self).tasks_seq()[j] == old(self).tasks_seq()[j],
            forall|j: int|
                0 <= j < old(self).tasks_seq().len() && (#[trigger] old(self).tasks_seq()[j]).id@
                    == id@ ==> content_eq(final(self).tasks_seq()[j], old(self).tasks_seq()[j])
                    && final(self).tasks_seq()[j].status == status && (
                final(self).tasks_seq()[j].completed_at is Some <==> status is Done),
    {
        let now = now_info();
        self.update_task_status_on(id, status, now.date);
    }

    /// As `update_task_status`, with the completion day supplied by the
    /// caller: a task moved to Done is stamped with `today`, any other
    /// status clears the stamp.
    pub fn update_task_status_on(&mut self, id: &String, status: TaskStatus, today: Date)
        requires
            old(self).inv(),
            today.valid(),
        ensures
            final(self).inv(),
            final(self).profile_rec() == old(self).profile_rec(),
            final(self).tasks_seq().len() == old(self).tasks_seq().len(),
            forall|j: int|
                0 <= j < old(self).tasks_seq().len() && (#[trigger] old(self).tasks_seq()[j]).id@
                    != id@ ==> final(self).tasks_seq()[j] == old(self).tasks_seq()[j],
            forall|j: int|
                0 <= j < old(self).tasks_seq().len() && (#[trigger] old(self).tasks_seq()[j]).id@
                    == id@ ==> content_eq(final(self).tasks_seq()[j], old(self).tasks_seq()[j])
                    && final(self).tasks_seq()[j].status == status
                    && final(self).tasks_seq()[j].completed_at == (if status is Done {
                    Some(today)
                } else {
                    Option::<Date>::None
                }),
    {
        let n = self.tasks.len();
        let mut i: usize = 0;
        while i < n
            invariant
                n == self.tasks@.len(),
                n == old(self).tasks@.len(),
                i <= n,
                self.profile == old(self).profile,
                old(self).inv(),
                today.valid(),
                forall|j: int|
                    i <= j < n ==> self.tasks@[j] == old(self).tasks@[j],
                forall|j: int|
                    0 <= j < i && (#[trigger] old(self).tasks@[j]).id@ != id@ ==> self.tasks@[j]
                        == old(self).tasks@[j],
                forall|j: int|
                    0 <= j < i && (#[trigger] old(self).tasks@[j]).id@ == id@ ==> content_eq(
                        self.tasks@[j],
                        old(self).tasks@[j],
                    ) && self.tasks@[j].status == status && self.tasks@[j].completed_at == (
                    if status is Done {
                        Some(today)
                    } else {
                        Option::<Date>::None
                    }),
            decreases n - i,
        {
            if self.tasks[i].id == *id {
                let t = &self.tasks[i];
                let updated = Task {
                    id: t.id.clone(),
                    title: t.title.clone(),
                    description: t.description.clone(),
                    status,
                    priority: t.priority,
                    xp_reward: t.xp_reward,
                    due_date: t.due_date,
                    created_at: t.created_at,
                    completed_at: if matches!(status, TaskStatus::Done) {
                        Some(today)
                    } else {
                        None
                    },
                };
                self.tasks[i] = updated;
            }
            i = i + 1;
        }
        proof {
            assert forall|a: int, b: int| 0 <= a < b < self.tasks@.len() implies self.tasks@[a]
                .created_at >= self.tasks@[b].created_at by {
                assert(sorted_newest_first(old(self).tasks@));
                assert(self.tasks@[a].created_at == old(self).tasks@[a].created_at);
                assert(self.tasks@[b].created_at == old(self).tasks@[b].created_at);
            }
            assert forall|j: int| 0 <= j < self.tasks@.len() implies (
            #[trigger] self.tasks@[j]).valid() by {
                assert(old(self).tasks@[j].valid());
            }
        }
    }

    /// Rewrites title, description, priority and due date of every task with
    /// the given id; status, completion, reward and creation stamp stay.
    pub fn update_task_content(
        &mut self,
        id: &String,
        title: &String,
        description: &String,
        priority: TaskPriority,
        due_date: Option<Date>,
    )
        requires
            old(self).inv(),
            due_date matches Some(d) ==> d.wf(),
        ensures
            final(self).inv(),
            final(self).profile_rec() == old(self).profile_rec(),
            final(self).tasks_seq().len() == old(self).tasks_seq().len(),
            forall|j: int|
                0 <= j < old(self).tasks_seq().len() && (#[trigger] old(self).tasks_seq()[j]).id@
                    != id@ ==> final(self).tasks_seq()[j] == old(self).tasks_seq()[j],
            forall|j: int|
                0 <= j < old(self).tasks_seq().len() && (#[trigger] old(self).tasks_seq()[j]).id@
                    == id@ ==> {
                    let t = final(self).tasks_seq()[j];
                    let o = old(self).tasks_seq()[j];
                    t.id@ == o.id@ && t.title@ == title@ && t.description@ == description@
                        && t.priority == priority && t.due_date == due_date && t.status == o.status
                        && t.xp_reward == o.xp_reward && t.created_at == o.created_at
                        && t.completed_at == o.completed_at
                },
    {
        let n = self.tasks.len();
        let mut i: usize = 0;
        while i < n
            invariant
                n == self.tasks@.len(),
                n == old(self).tasks@.len(),
                i <= n,
                self.profile == old(self).profile,
                old(self).inv(),
                due_date matches Some(d) ==> d.wf(),
                forall|j: int|
                    i <= j < n ==> self.tasks@[j] == old(self).tasks@[j],
                forall|j: int|
                    0 <= j < i && (#[trigger] old(self).tasks@[j]).id@ != id@ ==> self.tasks@[j]
                        == old(self).tasks@[j],
                forall|j: int|
                    0 <= j < i && (#[trigger] old(self).tasks@[j]).id@ == id@ ==> {
                        let t = self.tasks@[j];
                        let o = old(self).tasks@[j];
                        t.id@ == o.id@ && t.title@ == title@ && t.description@ == description@
                            && t.priority == priority && t.due_date == due_date && t.status
                            == o.status && t.xp_reward == o.xp_reward && t.created_at
                            == o.created_at && t.completed_at == o.completed_at
                    },
            decreases n - i,
        {
            if self.tasks[i].id == *id {
                let t = &self.tasks[i];
                let updated = Task {
                    id: t.id.clone(),
                    title: title.clone(),
                    description: description.clone(),
                    status: t.status,
                    priority,
                    xp_reward: t.xp_reward,
                    due_date,
                    created_at: t.created_at,
                    completed_at: t.completed_at,
                };
                self.tasks[i] = updated;
            }
            i = i + 1;
        }
        proof {
            assert forall|a: int, b: int| 0 <= a < b < self.tasks@.len() implies self.tasks@[a]
                .created_at >= self.tasks@[b].created_at by {
                assert(sorted_newest_first(old(self).tasks@));
                assert(self.tasks@[a].created_at == old(self).tasks@[a].created_at);
                assert(self.tasks@[b].created_at == old(self).tasks@[b].created_at);
            }
            assert forall|j: int| 0 <= j < self.tasks@.len() implies (
            #[trigger] self.tasks@[j]).valid() by {
                assert(old(self).tasks@[j].valid());
            }
        }
    }

    /// Removes every task with the given id, keeping the order of the rest.
    pub fn delete_task(&mut self, id: &String)
        requires
            old(self).inv(),
        ensures
            final(self).inv(),
            final(self).profile_rec() == old(self).profile_rec(),
            final(self).tasks_seq() == spec_remove_id(old(self).tasks_seq(), id@),
    {
        let ghost pre = self.tasks@;
        let ghost idv = id@;
        let ghost pred = remove_pred(idv);
        let n = self.tasks.len();
        let mut r: Vec<Task> = Vec::new();
        let mut i: usize = 0;
        proof {
            reveal(Seq::filter);
            assert(pre.take(0).filter(pred) =~= Seq::<Task>::empty());
        }
        while i < n
            invariant
                n == self.tasks@.len(),
                self.tasks@ == pre,
                i <= n,
                idv == id@,
                r@ == pre.take(i as int).filter(remove_pred(idv)),
            decreases n - i,
        {
            let keep = !(self.tasks[i].id == *id);
            if keep {
                r.push(self.tasks[i].dup());
            }
            i = i + 1;
            proof {
                reveal(Seq::filter);
                assert(pre.take(i as int).drop_last() == pre.take(i - 1));
                assert(pre.take(i as int).last() == pre[i - 1]);
                assert(r@ =~= pre.take(i as int).filter(remove_pred(idv)));
            }
        }
        proof {
            assert(pre.take(n as int) == pre);
        }
        self.tasks = r;
        proof {
            let post = self.tasks@;
            let f = pre.filter(remove_pred(idv));
            assert forall|a: int| 0 <= a < post.len() implies (#[trigger] post[a]).valid() by {
                lemma_filter_element_from(pre, remove_pred(idv), a);
                let oi = choose|oi: int| 0 <= oi < pre.len() && pre[oi] == post[a];
                assert(old(self).inv());
                assert(pre[oi].valid());
            }
            assert forall|a: int, b: int| 0 <= a < b < post.len() implies post[a].created_at
                >= post[b].created_at by {
                lemma_filter_keeps_order(pre, remove_pred(idv), a, b);
            }
        }
    }
}

/// The task is done and was completed on the given day.
pub open spec fn completed_on(t: Task, d: Date) -> bool {
    t.status is Done && t.completed_at == Some(d)
}

/// How many stored tasks were completed on the given day.
pub open spec fn day_count(s: Seq<Task>, d: Date) -> nat {
    s.filter(|t: Task| completed_on(t, d)).len()
}

/// Some stored task was completed on the given day.
pub open spec fn has_completion(s: Seq<Task>, d: Date) -> bool {
    exists|i: int| 0 <= i < s.len() && completed_on(#[trigger] s[i], d)
}

/// The given day appears in the aggregate.
pub open spec fn stats_has_day(st: Seq<(Date, u64)>, d: Date) -> bool {
    exists|i: int| 0 <= i < st.len() && (#[trigger] st[i]).0 == d
}

/// What the weekly aggregate promises: at most seven rows, each naming a
/// day with at least one completion together with the exact number of tasks
/// completed that day, the days strictly newest-first, and no day with a
/// completion missing unless all seven rows name more recent days.
pub open spec fn stats_wf(st: Seq<(Date, u64)>, tasks: Seq<Task>) -> bool {
    &&& st.len() <= 7
    &&& forall|i: int|
        0 <= i < st.len() ==> has_completion(tasks, (#[trigger] st[i]).0) && st[i].1
            == day_count(tasks, st[i].0)
    &&& forall|i: int, j: int|
        0 <= i < j < st.len() ==> (#[trigger] st[j]).0.spec_lt((#[trigger] st[i]).0)
    &&& forall|d: Date|
        #[trigger] has_completion(tasks, d) ==> stats_has_day(st, d) || (st.len() == 7
            && d.spec_lt(st[st.len() - 1].0))
}

/// The completion day of a task, when the task has one, is newer than the
/// given bound (or any day, when there is no bound): the days still open to
/// the aggregate search.
pub open spec fn stats_candidate(t: Task, bound: Option<Date>) -> bool {
    match t.completed_at {
        Some(d) => t.status is Done && (match bound {
            Some(b) => d.spec_lt(b),
            None => true,
        }),
        None => false,
    }
}

/// The completion day of a task, defaulting to a placeholder.
pub open spec fn the_comp_day(t: Task) -> Date {
    match t.completed_at {
        Some(d) => d,
        None => Date { year: 0, month: 0, day: 0 },
    }
}

/// Two dates compare in exactly one way: before, after, or equal.
pub proof fn lemma_date_order_total(a: Date, b: Date)
    ensures
        a.spec_lt(b) || b.spec_lt(a) || a == b,
        !(a.spec_lt(b) && b.spec_lt(a)),
        a.spec_lt(b) ==> a != b,
{
}

impl Store {
    /// Derives the weekly completion aggregate from the stored tasks: for
    /// the most recent seven days with completions, how many tasks were
    /// completed on each, newest first.
    pub fn get_weekly_stats(&self) -> (r: Vec<(Date, u64)>)
        ensures
            stats_wf(r@, self.tasks_seq()),
    {
        let ghost tasks = self.tasks@;
        let n = self.tasks.len();
        let mut stats: Vec<(Date, u64)> = Vec::new();
        let mut more = true;
        while more && stats.len() < 7
            invariant
                n == tasks.len(),
                self.tasks@ == tasks,
                stats@.len() <= 7,
                forall|i: int|
                    0 <= i < stats@.len() ==> has_completion(tasks, (#[trigger] stats@[i]).0)
                        && stats@[i].1 == day_count(tasks, stats@[i].0),
                forall|i: int, j: int|
                    0 <= i < j < stats@.len() ==> (#[trigger] stats@[j]).0.spec_lt(
                        (#[trigger] stats@[i]).0,
                    ),
                forall|d: Date|
                    #[trigger] has_completion(tasks, d) ==> stats_has_day(stats@, d)
                        || stats@.len() == 0 || d.spec_lt(stats@[stats@.len() - 1].0),
                !more ==> forall|d: Date|
                    #[trigger] has_completion(tasks, d) ==> stats_has_day(stats@, d),
            decreases 2 * (7 - stats@.len()) + (if more {
                1int
            } else {
                0int
            }),
        {
            let ghost bound: Option<Date> = if stats@.len() > 0 {
                Some(stats@[stats@.len() - 1].0)
            } else {
                None
            };
            let bound_day: Option<Date> = if stats.len() > 0 {
                Some(stats[stats.len() - 1].0)
            } else {
                None
            };
            proof {
                assert(bound_day == bound);
            }
            let mut best: Option<Date> = None;
            let mut i: usize = 0;
            while i < n
                invariant
                    n == tasks.len(),
                    self.tasks@ == tasks,
                    i <= n,
                    bound_day == bound,
                    best is None ==> forall|j: int|
                        0 <= j < i ==> !stats_candidate(#[trigger] tasks[j], bound),
                    best matches Some(b) ==> stats_candidate_day(tasks, i as int, b, bound),
                decreases n - i,
            {
                let ghost prev_best = best;
                let t = &self.tasks[i];
                let is_done = matches!(t.status, TaskStatus::Done);
                let mut cand_day: Option<Date> = None;
                match &t.completed_at {
                    Some(d) => {
                        let within = match &bound_day {
                            Some(bd) => d.lt(bd),
                            None => true,
                        };
                        if is_done && within {
                            cand_day = Some(*d);
                        }
                    },
                    None => {},
                }
                proof {
                    assert(cand_day matches Some(cd) ==> stats_candidate(tasks[i as int], bound)
                        && the_comp_day(tasks[i as int]) == cd);
                    assert(cand_day is None ==> !stats_candidate(tasks[i as int], bound));
                }
                match cand_day {
                    Some(d) => {
                        let better = match &best {
                            Some(b) => b.lt(&d),
                            None => true,
                        };
                        if better {
                            best = Some(d);
                            proof {
                                assert forall|j: int|
                                    0 <= j < i + 1 && stats_candidate(#[trigger] tasks[j], bound)
                                    implies !d.spec_lt(the_comp_day(tasks[j])) by {
                                    let dj = the_comp_day(tasks[j]);
                                    if j < i {
                                        match prev_best {
                                            Some(pb) => {
                                                assert(!pb.spec_lt(dj));
                                                assert(pb.spec_lt(d));
                                                lemma_date_order_total(dj, pb);
                                            },
                                            None => {},
                                        }
                                    }
                                }
                                assert(stats_candidate_day(tasks, i + 1, d, bound));
                            }
                        } else {
                            proof {
                                match prev_best {
                                    Some(pb) => {
                                        assert(!pb.spec_lt(d));
                                        let w = choose|j: int|
                                            0 <= j < i && stats_candidate(
                                                #[trigger] tasks[j],
                                                bound,
                                            ) && the_comp_day(tasks[j]) == pb;
                                        assert(stats_candidate(tasks[w], bound));
                                        assert(stats_candidate_day(tasks, i + 1, pb, bound));
                                    },
                                    None => {},
                                }
                            }
                        }
                    },
                    None => {
                        proof {
                            match prev_best {
                                Some(pb) => {
                                    let w = choose|j: int|
                                        0 <= j < i && stats_candidate(#[trigger] tasks[j], bound)
                                            && the_comp_day(tasks[j]) == pb;
                                    assert(stats_candidate(tasks[w], bound));
                                    assert(stats_candidate_day(tasks, i + 1, pb, bound));
                                },
                                None => {},
                            }
                        }
                    },
                }
                i = i + 1;
            }
            match best {
                None => {
                    more = false;
                    proof {
                        assert forall|d: Date| #[trigger] has_completion(tasks, d) implies
                        stats_has_day(stats@, d) by {
                            let w = choose|w: int|
                                0 <= w < tasks.len() && completed_on(tasks[w], d);
                            if stats@.len() == 0 {
                                assert(stats_candidate(tasks[w], bound));
                            } else {
                                if !stats_has_day(stats@, d) {
                                    assert(d.spec_lt(stats@[stats@.len() - 1].0));
                                    assert(stats_candidate(tasks[w], bound));
                                }
                            }
                        }
                    }
                },
                Some(b) => {
                    let ghost pre_stats = stats@;
                    let mut count: u64 = 0;
                    let mut j: usize = 0;
                    proof {
                        reveal(Seq::filter);
                        assert(tasks.take(0).filter(|t: Task| completed_on(t, b))
                            =~= Seq::<Task>::empty());
                    }
                    while j < n
                        invariant
                            n == tasks.len(),
                            self.tasks@ == tasks,
                            j <= n,
                            count <= j,
                            count == day_count(tasks.take(j as int), b),
                        decreases n - j,
                    {
                        let t = &self.tasks[j];
                        let matches_day = match &t.completed_at {
                            Some(d) => matches!(t.status, TaskStatus::Done) && d.year == b.year
                                && d.month == b.month && d.day == b.day,
                            None => false,
                        };
                        if matches_day {
                            count = count + 1;
                        }
                        j = j + 1;
                        proof {
                            reveal(Seq::filter);
                            assert(tasks.take(j as int).drop_last() == tasks.take(j - 1));
                            assert(tasks.take(j as int).last() == tasks[j - 1]);
                        }
                    }
                    proof {
                        assert(tasks.take(n as int) == tasks);
                    }
                    stats.push((b, count));
                    proof {
                        let st = stats@;
                        let last = st.len() - 1;
                        assert(st[last].0 == b && st[last].1 == count);
                        assert(forall|i: int| 0 <= i < last ==> st[i] == pre_stats[i]);
                        let w = choose|w: int|
                            0 <= w < tasks.len() && stats_candidate(tasks[w], bound)
                                && the_comp_day(tasks[w]) == b;
                        assert(completed_on(tasks[w], b));
                        assert(has_completion(tasks, b));
                        assert forall|a: int, c: int| 0 <= a < c < st.len() implies (
                        #[trigger] st[c]).0.spec_lt((#[trigger] st[a]).0) by {
                            if c == last && pre_stats.len() > 0 {
                                assert(b.spec_lt(pre_stats[pre_stats.len() - 1].0));
                                if a < last - 1 {
                                    assert(pre_stats[pre_stats.len() - 1].0.spec_lt(
                                        pre_stats[a].0,
                                    ));
                                }
                            }
                        }
                        assert forall|d: Date| #[trigger] has_completion(tasks, d) implies
                        stats_has_day(st, d) || st.len() == 0 || d.spec_lt(st[st.len() - 1].0) by {
                            let w2 = choose|w2: int|
                                0 <= w2 < tasks.len() && completed_on(tasks[w2], d);
                            if !stats_has_day(st, d) {
                                assert(!stats_has_day(pre_stats, d)) by {
                                    if stats_has_day(pre_stats, d) {
                                        let ii = choose|ii: int|
                                            0 <= ii < pre_stats.len() && pre_stats[ii].0 == d;
                                        assert(st[ii].0 == d);
                                    }
                                }
                                assert(d != b);
                                if pre_stats.len() == 0 {
                                    assert(stats_candidate(tasks[w2], bound));
                                    assert(!b.spec_lt(the_comp_day(tasks[w2])));
                                    lemma_date_order_total(d, b);
                                } else {
                                    assert(d.spec_lt(pre_stats[pre_stats.len() - 1].0));
                                    assert(stats_candidate(tasks[w2], bound));
                                    assert(!b.spec_lt(the_comp_day(tasks[w2])));
                                    lemma_date_order_total(d, b);
                                }
                            }
                        }
                    }
                },
            }
        }
        proof {
            assert(stats_wf(stats@, tasks));
        }
        stats
    }
}

/// Up to index `i`, the day `b` is a candidate day reached by some task and
/// no candidate day beats it.
pub open spec fn stats_candidate_day(tasks: Seq<Task>, i: int, b: Date, bound: Option<Date>) -> bool {
    &&& exists|j: int|
        0 <= j < i && stats_candidate(#[trigger] tasks[j], bound) && the_comp_day(tasks[j]) == b
    &&& forall|j: int|
        0 <= j < i && stats_candidate(#[trigger] tasks[j], bound) ==> !b.spec_lt(
            the_comp_day(tasks[j]),
        )
}

/// Every entry of a filtered sequence is an entry of the original.
pub proof fn lemma_filter_element_from(s: Seq<Task>, pred: spec_fn(Task) -> bool, a: int)
    requires
        0 <= a < s.filter(pred).len(),
    ensures
        exists|oi: int| 0 <= oi < s.len() && s[oi] == s.filter(pred)[a],
    decreases s.len(),
{
    reveal(Seq::filter);
    if s.len() > 0 {
        let f = s.filter(pred);
        let fd = s.drop_last().filter(pred);
        if pred(s.last()) && a == f.len() - 1 {
            assert(s[s.len() - 1] == f[a]);
        } else {
            lemma_filter_element_from(s.drop_last(), pred, a);
            let oi = choose|oi: int| 0 <= oi < s.drop_last().len() && s.drop_last()[oi] == fd[a];
            assert(s[oi] == f[a]);
        }
    }
}

/// Within a filtered sequence, two entries in order come from entries in
/// order, so a sort order of the original carries to the filtered view.
proof fn lemma_filter_keeps_order(s: Seq<Task>, pred: spec_fn(Task) -> bool, a: int, b: int)
    requires
        sorted_newest_first(s),
        0 <= a < b < s.filter(pred).len(),
    ensures
        s.filter(pred)[a].created_at >= s.filter(pred)[b].created_at,
    decreases s.len(),
{
    reveal(Seq::filter);
    if s.len() > 0 {
        let f = s.filter(pred);
        let fd = s.drop_last().filter(pred);
        assert(sorted_newest_first(s.drop_last()));
        if pred(s.last()) {
            if b < f.len() - 1 {
                lemma_filter_keeps_order(s.drop_last(), pred, a, b);
            } else {
                // the last filtered entry is the last element of s
                if a < fd.len() {
                    lemma_filter_member_bound(s.drop_last(), pred, a);
                }
            }
        } else {
            lemma_filter_keeps_order(s.drop_last(), pred, a, b);
        }
    }
}

/// Every entry of a filtered sequence equals some entry of the original no
/// later than the tail, so it inherits the original's age bound.
proof fn lemma_filter_member_bound(s: Seq<Task>, pred: spec_fn(Task) -> bool, a: int)
    requires
        sorted_newest_first(s),
        0 <= a < s.filter(pred).len(),
        s.len() > 0,
    ensures
        s.filter(pred)[a].created_at >= s.last().created_at,
    decreases s.len(),
{
    reveal(Seq::filter);
    let f = s.filter(pred);
    let fd = s.drop_last().filter(pred);
    assert(sorted_newest_first(s.drop_last()));
    if pred(s.last()) && a == f.len() - 1 {
    } else {
        if s.drop_last().len() > 0 {
            lemma_filter_member_bound(s.drop_last(), pred, a);
            assert(s.drop_last().last().created_at >= s.last().created_at);
        } else {
            assert(fd.len() == 0);
        }
    }
}

} // verus!
