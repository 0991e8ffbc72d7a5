//! The application aggregate: the cached view of the store, the navigation
//! cursors, the form, the timer, and every state transition a user action
//! can cause.

use vstd::prelude::*;

use crate::dates::{format_date, parse_date, spec_format_date, spec_parse_date};
use crate::form::{form_eq, FormField, TaskForm};
use crate::models::{
    spec_next_status, spec_xp_cascade, Date, Task, TaskStatus, UserProfile,
};
use crate::nav::{advance, clamp, retreat, sel_in_range, spec_advance, spec_clamp, spec_retreat};
use crate::store::{
    content_eq, lemma_filter_element_from, spec_remove_id, stats_wf, Store,
};
use crate::sys::{fresh_task_id, lower_of, now_info, to_lower, NowInfo};
use crate::text::{
    chars_string, collapse_newlines, contains_chars, decimal_chars, parse_xp,
    spec_collapse_newlines, spec_contains, spec_decimal, spec_parse_xp, spec_trim, str_chars,
    trim_chars,
};
use crate::timer::{spec_tick, FocusState};

verus! {

/// How typed keys are interpreted.
#[derive(PartialEq, Eq, Structural, Clone, Copy, Debug)]
pub enum InputMode {
    Normal,
    Editing,
    Search,
}

/// Which screen is shown.
#[derive(PartialEq, Eq, Structural, Clone, Copy, Debug)]
pub enum CurrentView {
    Splash,
    Dashboard,
    Kanban,
    Focus,
    Analytics,
}

/// The view after the given one in the fixed cycle; the one-shot splash
/// leads into the dashboard.
pub open spec fn spec_next_view(v: CurrentView) -> CurrentView {
    match v {
        CurrentView::Splash => CurrentView::Dashboard,
        CurrentView::Dashboard => CurrentView::Kanban,
        CurrentView::Kanban => CurrentView::Focus,
        CurrentView::Focus => CurrentView::Analytics,
        CurrentView::Analytics => CurrentView::Dashboard,
    }
}

/// The cursors of the three kanban columns and which column has focus.
#[derive(PartialEq, Eq, Structural, Clone, Copy, Debug)]
pub struct KanbanState {
    pub todo_sel: Option<usize>,
    pub doing_sel: Option<usize>,
    pub done_sel: Option<usize>,
    pub focused_col: usize,
}

impl KanbanState {
    /// Fresh kanban cursors, all on the first entry, focus on the first
    /// column; they are clamped against the real columns on refresh.
    pub fn default() -> (r: KanbanState)
        ensures
            r == (KanbanState {
                todo_sel: Some(0usize),
                doing_sel: Some(0usize),
                done_sel: Some(0usize),
                focused_col: 0usize,
            }),
    {
        KanbanState { todo_sel: Some(0), doing_sel: Some(0), done_sel: Some(0), focused_col: 0 }
    }
}

/// The kanban column a task of the given status lives in.
pub open spec fn spec_status_of_col(col: int) -> TaskStatus {
    if col == 0 {
        TaskStatus::Todo
    } else if col == 1 {
        TaskStatus::Doing
    } else if col == 2 {
        TaskStatus::Done
    } else {
        TaskStatus::Todo
    }
}

/// A task passes the live search: the query is empty, or the lowercased
/// title or description contains the lowercased query as a substring.
pub open spec fn task_matches_query(t: Task, q: Seq<char>) -> bool {
    ||| q.len() == 0
    ||| spec_contains(lower_of(t.title@), lower_of(q))
    ||| spec_contains(lower_of(t.description@), lower_of(q))
}

/// The cached, filtered view of a stored task list under a search query.
pub open spec fn spec_filter_tasks(s: Seq<Task>, q: Seq<char>) -> Seq<Task> {
    s.filter(|t: Task| task_matches_query(t, q))
}

/// How many cached tasks sit in the given workflow state.
pub open spec fn spec_status_count(s: Seq<Task>, st: TaskStatus) -> nat {
    s.filter(|t: Task| t.status == st).len()
}

/// Two optional task identifiers naming the same task.
pub open spec fn opt_id_eq(a: Option<String>, b: Option<String>) -> bool {
    match (a, b) {
        (None, None) => true,
        (Some(x), Some(y)) => x@ == y@,
        _ => false,
    }
}

/// Filtering with a predicate that holds everywhere keeps the sequence.
proof fn lemma_filter_all(s: Seq<Task>, pred: spec_fn(Task) -> bool)
    requires
        forall|i: int| 0 <= i < s.len() ==> pred(#[trigger] s[i]),
    ensures
        s.filter(pred) == s,
    decreases s.len(),
{
    reveal(Seq::filter);
    if s.len() > 0 {
        lemma_filter_all(s.drop_last(), pred);
        assert(s.drop_last().push(s.last()) =~= s);
    }
}

/// Counts the cached tasks in the given workflow state.
fn count_status(tasks: &Vec<Task>, st: TaskStatus) -> (r: usize)
    ensures
        r == spec_status_count(tasks@, st),
{
    let ghost pred = |t: Task| t.status == st;
    let mut r: usize = 0;
    let mut i: usize = 0;
    proof {
        reveal(Seq::filter);
        assert(tasks@.take(0).filter(pred) =~= Seq::<Task>::empty());
    }
    while i < tasks.len()
        invariant
            i <= tasks@.len(),
            r <= i,
            r == tasks@.take(i as int).filter(|t: Task| t.status == st).len(),
        decreases tasks@.len() - i,
    {
        if tasks[i].status == st {
            r = r + 1;
        }
        i = i + 1;
        proof {
            reveal(Seq::filter);
            assert(tasks@.take(i as int).drop_last() == tasks@.take(i - 1));
            assert(tasks@.take(i as int).last() == tasks@[i - 1]);
        }
    }
    proof {
        assert(tasks@.take(tasks@.len() as int) == tasks@);
    }
    r
}

/// The whole session state: the store, the cached filtered task list, the
/// profile and weekly aggregate snapshots, the cursors, the form, the
/// timer, and the mode flags.
pub struct App {
    pub store: Store,
    pub tasks: Vec<Task>,
    pub user_profile: UserProfile,
    pub input_mode: InputMode,
    pub task_form: TaskForm,
    pub table_sel: Option<usize>,
    pub current_view: CurrentView,
    pub focus_state: FocusState,
    pub kanban_state: KanbanState,
    pub is_inspecting: bool,
    pub editing_task_id: Option<String>,
    pub search_query: String,
    pub stats: Vec<(Date, u64)>,
    pub show_help: bool,
}

/// Mode, view, overlays, search text and edit target agree.
pub open spec fn same_modes(o: App, f: App) -> bool {
    &&& f.input_mode == o.input_mode
    &&& f.current_view == o.current_view
    &&& f.is_inspecting == o.is_inspecting
    &&& f.show_help == o.show_help
    &&& f.search_query@ == o.search_query@
    &&& opt_id_eq(f.editing_task_id, o.editing_task_id)
}

/// The form buffers agree.
pub open spec fn same_form(o: App, f: App) -> bool {
    form_eq(f.task_form, o.task_form)
}

/// The timer agrees.
pub open spec fn same_focus(o: App, f: App) -> bool {
    f.focus_state == o.focus_state
}

/// Store, cache, profile and stats snapshots, and all cursors agree.
pub open spec fn same_data(o: App, f: App) -> bool {
    &&& f.store == o.store
    &&& f.tasks@ == o.tasks@
    &&& f.user_profile == o.user_profile
    &&& f.stats@ == o.stats@
    &&& f.table_sel == o.table_sel
    &&& f.kanban_state == o.kanban_state
}

/// The cache, profile and stats snapshots follow from `f`'s store and
/// search query, and every cursor was clamped against the new lists.
pub open spec fn cache_rederived(o: App, f: App) -> bool {
    &&& f.user_profile == f.store.profile_rec()
    &&& f.tasks@ == spec_filter_tasks(f.store.tasks_seq(), f.search_query@)
    &&& stats_wf(f.stats@, f.store.tasks_seq())
    &&& f.table_sel == spec_clamp(o.table_sel, f.tasks@.len() as usize)
    &&& f.kanban_state.todo_sel == spec_clamp(
        o.kanban_state.todo_sel,
        spec_status_count(f.tasks@, TaskStatus::Todo) as usize,
    )
    &&& f.kanban_state.doing_sel == spec_clamp(
        o.kanban_state.doing_sel,
        spec_status_count(f.tasks@, TaskStatus::Doing) as usize,
    )
    &&& f.kanban_state.done_sel == spec_clamp(
        o.kanban_state.done_sel,
        spec_status_count(f.tasks@, TaskStatus::Done) as usize,
    )
    &&& f.kanban_state.focused_col == o.kanban_state.focused_col
}

/// A cache rebuild with nothing else touched.
pub open spec fn refreshed(o: App, f: App) -> bool {
    &&& f.store == o.store
    &&& same_modes(o, f)
    &&& same_form(o, f)
    &&& same_focus(o, f)
    &&& cache_rederived(o, f)
}

impl App {
    /// Cursor bookkeeping invariant: each cursor is missing exactly when
    /// its list is empty and otherwise in range, and one of the three
    /// kanban columns has focus.
    pub open spec fn cursors_ok(&self) -> bool {
        &&& sel_in_range(self.table_sel, self.tasks@.len())
        &&& sel_in_range(
            self.kanban_state.todo_sel,
            spec_status_count(self.tasks@, TaskStatus::Todo),
        )
        &&& sel_in_range(
            self.kanban_state.doing_sel,
            spec_status_count(self.tasks@, TaskStatus::Doing),
        )
        &&& sel_in_range(
            self.kanban_state.done_sel,
            spec_status_count(self.tasks@, TaskStatus::Done),
        )
        &&& self.kanban_state.focused_col < 3
    }

    /// Session invariant: the store is sound, the cache is exactly the
    /// filtered view of the store under the live query, the profile and
    /// weekly snapshots mirror the store, every cursor fits its list, and
    /// the timer is within its session.
    pub open spec fn inv(&self) -> bool {
        &&& self.store.inv()
        &&& self.tasks@ == spec_filter_tasks(self.store.tasks_seq(), self.search_query@)
        &&& self.user_profile == self.store.profile_rec()
        &&& stats_wf(self.stats@, self.store.tasks_seq())
        &&& self.cursors_ok()
        &&& self.focus_state.inv()
    }

    /// Rebuilds the cached task list, profile and weekly snapshots from the
    /// store, applying the live search filter, and clamps every cursor.
    pub fn refresh_state(&mut self)
        requires
            old(self).store.inv(),
            old(self).focus_state.inv(),
            old(self).kanban_state.focused_col < 3,
        ensures
            final(self).inv(),
            refreshed(*old(self), *final(self)),
    {
        let ghost q = self.search_query@;
        let all = self.store.get_all_tasks();
        if self.search_query.as_str().is_empty() {
            proof {
                lemma_filter_all(all@, |t: Task| task_matches_query(t, q));
            }
            self.tasks = all;
        } else {
            let ql = to_lower(&self.search_query);
            let qv = str_chars(ql.as_str());
            let mut filtered: Vec<Task> = Vec::new();
            let mut i: usize = 0;
            proof {
                reveal(Seq::filter);
                assert(all@.take(0).filter(|t: Task| task_matches_query(t, q))
                    =~= Seq::<Task>::empty());
            }
            while i < all.len()
                invariant
                    i <= all@.len(),
                    q.len() > 0,
                    qv@ == lower_of(q),
                    filtered@ == all@.take(i as int).filter(|t: Task| task_matches_query(t, q)),
                decreases all@.len() - i,
            {
                let lt = to_lower(&all[i].title);
                let ltc = str_chars(lt.as_str());
                let ld = to_lower(&all[i].description);
                let ldc = str_chars(ld.as_str());
                let hit = contains_chars(&ltc, &qv) || contains_chars(&ldc, &qv);
                proof {
                    assert(hit == task_matches_query(all@[i as int], q));
                }
                if hit {
                    filtered.push(all[i].dup());
                }
                i = i + 1;
                proof {
                    reveal(Seq::filter);
                    assert(all@.take(i as int).drop_last() == all@.take(i - 1));
                    assert(all@.take(i as int).last() == all@[i - 1]);
                    assert(filtered@ =~= all@.take(i as int).filter(
                        |t: Task| task_matches_query(t, q),
                    ));
                }
            }
            proof {
                assert(all@.take(all@.len() as int) == all@);
            }
            self.tasks = filtered;
        }
        self.user_profile = self.store.get_user_profile();
        self.stats = self.store.get_weekly_stats();
        self.table_sel = clamp(self.table_sel, self.tasks.len());
        let todo_n = count_status(&self.tasks, TaskStatus::Todo);
        let doing_n = count_status(&self.tasks, TaskStatus::Doing);
        let done_n = count_status(&self.tasks, TaskStatus::Done);
        self.kanban_state.todo_sel = clamp(self.kanban_state.todo_sel, todo_n);
        self.kanban_state.doing_sel = clamp(self.kanban_state.doing_sel, doing_n);
        self.kanban_state.done_sel = clamp(self.kanban_state.done_sel, done_n);
    }

    /// A fresh session: empty store, default profile, splash screen, normal
    /// mode, blank form, full timer, no search and no overlays.
    pub fn new() -> (r: App)
        ensures
            r.inv(),
            r.store.tasks_seq().len() == 0,
            r.store.profile_rec() == (UserProfile {
                id: 1,
                level: 1,
                current_xp: 0,
                next_level_xp: 100,
            }),
            r.tasks@.len() == 0,
            r.input_mode is Normal,
            r.current_view is Splash,
            r.table_sel is None,
            r.is_inspecting == false,
            r.show_help == false,
            r.editing_task_id is None,
            r.search_query@.len() == 0,
            r.focus_state == (FocusState {
                is_running: false,
                duration_sec: crate::timer::DEFAULT_SESSION_SECS as i64,
                remaining_sec: crate::timer::DEFAULT_SESSION_SECS as i64,
                last_tick: None::<i64>,
            }),
            r.task_form.title@.len() == 0,
            r.task_form.description@.len() == 0,
            r.task_form.priority == crate::models::TaskPriority::Medium,
            r.task_form.xp@ == seq!['1', '0'],
            r.task_form.due_date@.len() == 0,
            r.task_form.active_field is Title,
            r.kanban_state.focused_col == 0,
    {
        let mut app = App {
            store: Store::new(),
            tasks: Vec::new(),
            user_profile: UserProfile::default(),
            input_mode: InputMode::Normal,
            task_form: TaskForm::default(),
            table_sel: None,
            current_view: CurrentView::Splash,
            focus_state: FocusState::default(),
            kanban_state: KanbanState::default(),
            is_inspecting: false,
            editing_task_id: None,
            search_query: String::new(),
            stats: Vec::new(),
            show_help: false,
        };
        app.refresh_state();
        proof {
            assert(app.store.tasks_seq().len() == 0);
            assert(app.tasks@.len() == 0) by {
                broadcast use vstd::seq_lib::group_seq_properties;

                reveal(Seq::filter);
            }
        }
        app
    }
}

/// One kanban cursor stepped: the focused column's cursor moved over a list
/// of `n` entries, the other columns and the focus untouched.
pub open spec fn kanban_stepped(o: KanbanState, f: KanbanState, n: usize, forward: bool) -> bool {
    &&& f.focused_col == o.focused_col
    &&& if o.focused_col == 0 {
        &&& f.todo_sel == (if forward {
            spec_advance(o.todo_sel, n)
        } else {
            spec_retreat(o.todo_sel, n)
        })
        &&& f.doing_sel == o.doing_sel
        &&& f.done_sel == o.done_sel
    } else if o.focused_col == 1 {
        &&& f.doing_sel == (if forward {
            spec_advance(o.doing_sel, n)
        } else {
            spec_retreat(o.doing_sel, n)
        })
        &&& f.todo_sel == o.todo_sel
        &&& f.done_sel == o.done_sel
    } else {
        &&& f.done_sel == (if forward {
            spec_advance(o.done_sel, n)
        } else {
            spec_retreat(o.done_sel, n)
        })
        &&& f.todo_sel == o.todo_sel
        &&& f.doing_sel == o.doing_sel
    }
}

/// A navigation step: on the dashboard the table cursor moves circularly;
/// on the kanban board the focused column's cursor moves circularly over
/// that column; elsewhere nothing happens. Nothing else changes.
pub open spec fn item_stepped(o: App, f: App, forward: bool) -> bool {
    &&& same_modes(o, f)
    &&& same_form(o, f)
    &&& same_focus(o, f)
    &&& f.store == o.store
    &&& f.tasks@ == o.tasks@
    &&& f.user_profile == o.user_profile
    &&& f.stats@ == o.stats@
    &&& match o.current_view {
        CurrentView::Dashboard => {
            &&& f.table_sel == (if forward {
                spec_advance(o.table_sel, o.tasks@.len() as usize)
            } else {
                spec_retreat(o.table_sel, o.tasks@.len() as usize)
            })
            &&& f.kanban_state == o.kanban_state
        },
        CurrentView::Kanban => {
            &&& f.table_sel == o.table_sel
            &&& kanban_stepped(
                o.kanban_state,
                f.kanban_state,
                spec_status_count(
                    o.tasks@,
                    spec_status_of_col(o.kanban_state.focused_col as int),
                ) as usize,
                forward,
            )
        },
        _ => {
            &&& f.table_sel == o.table_sel
            &&& f.kanban_state == o.kanban_state
        },
    }
}

/// Every task shown in the cache is a stored task, so it satisfies the
/// stored tasks' invariant.
pub proof fn lemma_cache_task_valid(a: App, i: int)
    requires
        a.inv(),
        0 <= i < a.tasks@.len(),
    ensures
        a.tasks@[i].valid(),
{
    let pred = |t: Task| task_matches_query(t, a.search_query@);
    lemma_filter_element_from(a.store.tasks_seq(), pred, i);
    let oi = choose|oi: int|
        0 <= oi < a.store.tasks_seq().len() && a.store.tasks_seq()[oi] == a.store.tasks_seq()
            .filter(pred)[i];
    assert(a.store.tasks_seq()[oi].valid());
}

/// The cache discipline: in any well-formed session, every task in the
/// cached view satisfies the live search predicate, and with no search
/// active the cache is exactly the store's task list. Since every mutation
/// re-establishes the session invariant by refreshing, this holds after
/// each refresh.
pub proof fn lemma_cache_matches_store(a: App)
    requires
        a.inv(),
    ensures
        forall|j: int|
            0 <= j < a.tasks@.len() ==> task_matches_query(#[trigger] a.tasks@[j], a.search_query@),
        a.search_query@.len() == 0 ==> a.tasks@ == a.store.tasks_seq(),
{
    let pred = |t: Task| task_matches_query(t, a.search_query@);
    assert forall|j: int| 0 <= j < a.tasks@.len() implies task_matches_query(
        #[trigger] a.tasks@[j],
        a.search_query@,
    ) by {
        a.store.tasks_seq().lemma_filter_pred(pred, j);
    }
    if a.search_query@.len() == 0 {
        lemma_filter_all(a.store.tasks_seq(), pred);
    }
}

/// The profile after awarding `amount` experience: the level-up cascade
/// applied, or the record unchanged when the cascade result does not fit
/// its fields.
pub open spec fn xp_awarded(p: UserProfile, q: UserProfile, amount: i32) -> bool {
    let (l, c, x) = spec_xp_cascade(p.level as int, p.current_xp + amount, p.next_level_xp as int);
    &&& q.id == p.id
    &&& if l <= i32::MAX && x <= i32::MAX {
        q.level == l && q.current_xp == c && q.next_level_xp == x
    } else {
        q == p
    }
}

/// Editing began on the selected dashboard task: its id became the edit
/// target, every form field was pre-filled from it, focus returned to the
/// title, and the mode switched to editing. Nothing else moved.
pub open spec fn edit_started(o: App, f: App) -> bool {
    o.table_sel matches Some(i) && {
        let t = o.tasks@[i as int];
        &&& f.input_mode is Editing
        &&& f.current_view == o.current_view
        &&& f.is_inspecting == o.is_inspecting
        &&& f.show_help == o.show_help
        &&& f.search_query@ == o.search_query@
        &&& (f.editing_task_id matches Some(eid) && eid@ == t.id@)
        &&& f.task_form.title@ == t.title@
        &&& f.task_form.description@ == t.description@
        &&& f.task_form.priority == t.priority
        &&& f.task_form.xp@ == spec_decimal(t.xp_reward as int)
        &&& f.task_form.due_date@ == (match t.due_date {
            Some(d) => spec_format_date(d),
            None => Seq::<char>::empty(),
        })
        &&& f.task_form.active_field is Title
        &&& same_data(o, f)
        &&& same_focus(o, f)
    }
}

/// The selected dashboard task moved one step along the status cycle: in
/// the store, every record with its id changed status (completion stamped
/// exactly when the new status is Done) and nothing else about it; the
/// profile received the task's reward exactly when the step entered Done
/// (from Doing); and the cache was rebuilt with cursors clamped.
pub open spec fn status_toggled(o: App, f: App) -> bool {
    o.table_sel matches Some(i) && {
        let t = o.tasks@[i as int];
        let ns = spec_next_status(t.status);
        &&& same_modes(o, f)
        &&& same_form(o, f)
        &&& same_focus(o, f)
        &&& f.store.tasks_seq().len() == o.store.tasks_seq().len()
        &&& forall|j: int|
            0 <= j < o.store.tasks_seq().len() && (#[trigger] o.store.tasks_seq()[j]).id@ != t.id@
                ==> f.store.tasks_seq()[j] == o.store.tasks_seq()[j]
        &&& forall|j: int|
            0 <= j < o.store.tasks_seq().len() && (#[trigger] o.store.tasks_seq()[j]).id@ == t.id@
                ==> content_eq(f.store.tasks_seq()[j], o.store.tasks_seq()[j]) && f.store
                .tasks_seq()[j].status == ns && (f.store.tasks_seq()[j].completed_at is Some <==> ns
                is Done)
        &&& if t.status is Doing {
            xp_awarded(o.store.profile_rec(), f.store.profile_rec(), t.xp_reward)
        } else {
            f.store.profile_rec() == o.store.profile_rec()
        }
        &&& cache_rederived(o, f)
    }
}

/// The selected dashboard task was removed: every stored record with its id
/// is gone, the rest kept their order, and the cache was rebuilt with
/// cursors clamped.
pub open spec fn task_deleted(o: App, f: App) -> bool {
    o.table_sel matches Some(i) && {
        let id = o.tasks@[i as int].id@;
        &&& same_modes(o, f)
        &&& same_form(o, f)
        &&& same_focus(o, f)
        &&& f.store.tasks_seq() == spec_remove_id(o.store.tasks_seq(), id)
        &&& f.store.profile_rec() == o.store.profile_rec()
        &&& cache_rederived(o, f)
    }
}

/// Filtering by the search query lines up pointwise across two stores whose
/// tasks agree on everything but workflow status and completion: the views
/// have the same length and corresponding entries come from corresponding
/// store positions.
proof fn lemma_filter_tasks_pointwise(s1: Seq<Task>, s2: Seq<Task>, q: Seq<char>)
    requires
        s1.len() == s2.len(),
        forall|j: int| 0 <= j < s1.len() ==> content_eq(#[trigger] s2[j], #[trigger] s1[j]),
    ensures
        spec_filter_tasks(s1, q).len() == spec_filter_tasks(s2, q).len(),
        forall|k: int|
            0 <= k < spec_filter_tasks(s1, q).len() ==> exists|j: int|
                0 <= j < s1.len() && s1[j] == #[trigger] spec_filter_tasks(s1, q)[k] && s2[j]
                    == spec_filter_tasks(s2, q)[k],
    decreases s1.len(),
{
    reveal(Seq::filter);
    let pred = |t: Task| task_matches_query(t, q);
    if s1.len() > 0 {
        let d1 = s1.drop_last();
        let d2 = s2.drop_last();
        assert(forall|j: int| 0 <= j < d1.len() ==> d1[j] == s1[j] && d2[j] == s2[j]);
        lemma_filter_tasks_pointwise(d1, d2, q);
        assert(content_eq(s2.last(), s1.last()));
        assert(pred(s1.last()) == pred(s2.last()));
        let f1 = spec_filter_tasks(s1, q);
        let f2 = spec_filter_tasks(s2, q);
        let fd1 = spec_filter_tasks(d1, q);
        let fd2 = spec_filter_tasks(d2, q);
        assert(f1 == if pred(s1.last()) {
            fd1.push(s1.last())
        } else {
            fd1
        });
        assert(f2 == if pred(s2.last()) {
            fd2.push(s2.last())
        } else {
            fd2
        });
        assert forall|k: int| 0 <= k < f1.len() implies exists|j: int|
            0 <= j < s1.len() && s1[j] == #[trigger] f1[k] && s2[j] == f2[k] by {
            if pred(s1.last()) && k == f1.len() - 1 {
                assert(s1[s1.len() - 1] == f1[k] && s2[s1.len() - 1] == f2[k]);
            } else {
                assert(f1[k] == fd1[k] && f2[k] == fd2[k]);
                let j = choose|j: int| 0 <= j < d1.len() && d1[j] == fd1[k] && d2[j] == fd2[k];
                assert(s1[j] == f1[k] && s2[j] == f2[k]);
            }
        }
    }
}

/// The full toggle law: stepping the selected dashboard task's status three
/// times returns it to where it started, the shown list keeps its shape and
/// content, and the task's experience reward is granted to the profile
/// exactly once over the cycle — on the one step into Done.
pub proof fn lemma_toggle_cycle(a0: App, a1: App, a2: App, a3: App, i: usize)
    requires
        a0.inv(),
        a0.table_sel == Some(i),
        status_toggled(a0, a1),
        status_toggled(a1, a2),
        status_toggled(a2, a3),
    ensures
        a3.tasks@.len() == a0.tasks@.len(),
        content_eq(a3.tasks@[i as int], a0.tasks@[i as int]),
        a3.tasks@[i as int].status == a0.tasks@[i as int].status,
        xp_awarded(
            a0.store.profile_rec(),
            a3.store.profile_rec(),
            a0.tasks@[i as int].xp_reward,
        ),
{
    let t0 = a0.tasks@[i as int];
    lemma_toggle_step(a0, a1, i);
    lemma_toggle_step(a1, a2, i);
    lemma_toggle_step(a2, a3, i);
    let t1 = a1.tasks@[i as int];
    let t2 = a2.tasks@[i as int];
    let t3 = a3.tasks@[i as int];
    assert(t1.status == spec_next_status(t0.status));
    assert(t2.status == spec_next_status(t1.status));
    assert(t3.status == spec_next_status(t2.status));
    assert(t3.status == t0.status);
    assert(t1.xp_reward == t0.xp_reward && t2.xp_reward == t0.xp_reward);
    let p0 = a0.store.profile_rec();
    let p1 = a1.store.profile_rec();
    let p2 = a2.store.profile_rec();
    let p3 = a3.store.profile_rec();
    // exactly one of the three starting statuses is Doing
    match t0.status {
        TaskStatus::Todo => {
            assert(p1 == p0 && xp_awarded(p1, p2, t0.xp_reward) && p3 == p2);
        },
        TaskStatus::Doing => {
            assert(xp_awarded(p0, p1, t0.xp_reward) && p2 == p1 && p3 == p2);
        },
        TaskStatus::Done => {
            assert(p1 == p0 && p2 == p1 && xp_awarded(p2, p3, t0.xp_reward));
        },
    }
}

/// One toggle step seen from the shown list: the cursor stays on the same
/// row, the list keeps its length, and that row keeps its content while its
/// status advances one step.
proof fn lemma_toggle_step(o: App, f: App, i: usize)
    requires
        o.table_sel == Some(i),
        o.tasks@ == spec_filter_tasks(o.store.tasks_seq(), o.search_query@),
        i < o.tasks@.len(),
        status_toggled(o, f),
    ensures
        f.tasks@.len() == o.tasks@.len(),
        f.table_sel == Some(i),
        f.search_query@ == o.search_query@,
        f.tasks@ == spec_filter_tasks(f.store.tasks_seq(), f.search_query@),
        i < f.tasks@.len(),
        content_eq(f.tasks@[i as int], o.tasks@[i as int]),
        f.tasks@[i as int].status == spec_next_status(o.tasks@[i as int].status),
        f.tasks@[i as int].xp_reward == o.tasks@[i as int].xp_reward,
        if o.tasks@[i as int].status is Doing {
            xp_awarded(o.store.profile_rec(), f.store.profile_rec(), o.tasks@[i as int].xp_reward)
        } else {
            f.store.profile_rec() == o.store.profile_rec()
        },
{
    let q = o.search_query@;
    let s1 = o.store.tasks_seq();
    let s2 = f.store.tasks_seq();
    let t0 = o.tasks@[i as int];
    assert forall|j: int| 0 <= j < s1.len() implies content_eq(
        #[trigger] s2[j],
        #[trigger] s1[j],
    ) by {
        if s1[j].id@ == t0.id@ {
        } else {
            assert(s2[j] == s1[j]);
            lemma_content_eq_refl(s1[j]);
        }
    }
    lemma_filter_tasks_pointwise(s1, s2, q);
    assert(f.tasks@ == spec_filter_tasks(s2, q));
    // the vector lengths bound both views by usize
    assert(o.tasks.len() == o.tasks@.len());
    assert(f.tasks.len() == f.tasks@.len());
    let j = choose|j: int|
        0 <= j < s1.len() && s1[j] == spec_filter_tasks(s1, q)[i as int] && s2[j]
            == spec_filter_tasks(s2, q)[i as int];
    assert(s1[j] == t0);
    assert(s1[j].id@ == t0.id@);
    assert(f.tasks@[i as int] == s2[j]);
    assert(content_eq(s2[j], s1[j]) && s2[j].status == spec_next_status(t0.status));
}

/// Content agreement is reflexive.
proof fn lemma_content_eq_refl(t: Task)
    ensures
        content_eq(t, t),
{
}

/// The one-line title a save commits: newlines collapsed to spaces, then
/// trimmed.
pub open spec fn spec_form_title(f: TaskForm) -> Seq<char> {
    spec_trim(spec_collapse_newlines(f.title@))
}

/// A save is refused silently exactly when the committed title is empty.
pub open spec fn spec_form_blank(f: TaskForm) -> bool {
    spec_form_title(f).len() == 0
}

/// The description a save commits: trimmed, newlines kept.
pub open spec fn spec_form_description(f: TaskForm) -> Seq<char> {
    spec_trim(f.description@)
}

/// The reward a save commits: the trimmed buffer read as decimal, or 10.
pub open spec fn spec_form_xp(f: TaskForm) -> i32 {
    spec_parse_xp(spec_trim(f.xp@))
}

/// The due date a save commits: the trimmed buffer parsed strictly as
/// `YYYY-MM-DD`, or none.
pub open spec fn spec_form_due(f: TaskForm) -> Option<Date> {
    spec_parse_date(spec_trim(f.due_date@))
}

/// What every successful save does besides the store change: clears the
/// edit target, resets the form to its defaults, and rebuilds the cache
/// with cursors clamped. Mode and view are the router's business and stay.
pub open spec fn saved_common(o: App, f: App) -> bool {
    &&& f.input_mode == o.input_mode
    &&& f.current_view == o.current_view
    &&& f.is_inspecting == o.is_inspecting
    &&& f.show_help == o.show_help
    &&& f.search_query@ == o.search_query@
    &&& f.editing_task_id is None
    &&& f.task_form.title@.len() == 0
    &&& f.task_form.description@.len() == 0
    &&& f.task_form.priority == crate::models::TaskPriority::Medium
    &&& f.task_form.xp@ == seq!['1', '0']
    &&& f.task_form.due_date@.len() == 0
    &&& f.task_form.active_field is Title
    &&& same_focus(o, f)
    &&& cache_rederived(o, f)
}

/// The store change of an edit-path save: every record with the edit
/// target's id took the committed title, description, priority and due
/// date; status, completion, reward and creation stamp stayed; nothing else
/// moved.
pub open spec fn saved_edit(o: App, f: App, eid: Seq<char>) -> bool {
    &&& f.store.profile_rec() == o.store.profile_rec()
    &&& f.store.tasks_seq().len() == o.store.tasks_seq().len()
    &&& forall|j: int|
        0 <= j < o.store.tasks_seq().len() && (#[trigger] o.store.tasks_seq()[j]).id@ != eid
            ==> f.store.tasks_seq()[j] == o.store.tasks_seq()[j]
    &&& forall|j: int|
        0 <= j < o.store.tasks_seq().len() && (#[trigger] o.store.tasks_seq()[j]).id@ == eid ==> {
            let t = f.store.tasks_seq()[j];
            let p = o.store.tasks_seq()[j];
            &&& t.id@ == p.id@
            &&& t.title@ == spec_form_title(o.task_form)
            &&& t.description@ == spec_form_description(o.task_form)
            &&& t.priority == o.task_form.priority
            &&& t.due_date == spec_form_due(o.task_form)
            &&& t.status == p.status
            &&& t.xp_reward == p.xp_reward
            &&& t.created_at == p.created_at
            &&& t.completed_at == p.completed_at
        }
}

/// The new task a create-path save put into the store, given the fresh id
/// and the clock reading.
pub open spec fn created_task_matches(t: Task, form: TaskForm, idv: Seq<char>, secs: i64) -> bool {
    &&& t.id@ == idv
    &&& t.title@ == spec_form_title(form)
    &&& t.description@ == spec_form_description(form)
    &&& t.status is Todo
    &&& t.priority == form.priority
    &&& t.xp_reward == spec_form_xp(form)
    &&& t.due_date == spec_form_due(form)
    &&& t.created_at == secs
    &&& t.completed_at is None
}

/// The store change of a create-path save: the committed task entered the
/// list at its newest-first position; the profile stayed.
pub open spec fn saved_create_at(o: App, f: App, idv: Seq<char>, secs: i64) -> bool {
    let pre = o.store.tasks_seq();
    let post = f.store.tasks_seq();
    let p = crate::store::spec_insert_pos(pre, secs);
    &&& f.store.profile_rec() == o.store.profile_rec()
    &&& post.len() == pre.len() + 1
    &&& 0 <= p < post.len()
    &&& post == pre.insert(p, post[p])
    &&& created_task_matches(post[p], o.task_form, idv, secs)
}

impl App {
    /// The kanban column a focused-column index selects.
    pub fn get_status_from_col(&self, col: usize) -> (r: TaskStatus)
        ensures
            r == spec_status_of_col(col as int),
    {
        if col == 0 {
            TaskStatus::Todo
        } else if col == 1 {
            TaskStatus::Doing
        } else if col == 2 {
            TaskStatus::Done
        } else {
            TaskStatus::Todo
        }
    }

    /// Moves the view-appropriate cursor one step down, wrapping.
    pub fn next_item(&mut self)
        requires
            old(self).inv(),
        ensures
            final(self).inv(),
            item_stepped(*old(self), *final(self), true),
    {
        match self.current_view {
            CurrentView::Dashboard => {
                self.table_sel = advance(self.table_sel, self.tasks.len());
            },
            CurrentView::Kanban => {
                let st = self.get_status_from_col(self.kanban_state.focused_col);
                let n = count_status(&self.tasks, st);
                if self.kanban_state.focused_col == 0 {
                    self.kanban_state.todo_sel = advance(self.kanban_state.todo_sel, n);
                } else if self.kanban_state.focused_col == 1 {
                    self.kanban_state.doing_sel = advance(self.kanban_state.doing_sel, n);
                } else {
                    self.kanban_state.done_sel = advance(self.kanban_state.done_sel, n);
                }
            },
            _ => {},
        }
    }

    /// Moves the view-appropriate cursor one step up, wrapping.
    pub fn previous_item(&mut self)
        requires
            old(self).inv(),
        ensures
            final(self).inv(),
            item_stepped(*old(self), *final(self), false),
    {
        match self.current_view {
            CurrentView::Dashboard => {
                self.table_sel = retreat(self.table_sel, self.tasks.len());
            },
            CurrentView::Kanban => {
                let st = self.get_status_from_col(self.kanban_state.focused_col);
                let n = count_status(&self.tasks, st);
                if self.kanban_state.focused_col == 0 {
                    self.kanban_state.todo_sel = retreat(self.kanban_state.todo_sel, n);
                } else if self.kanban_state.focused_col == 1 {
                    self.kanban_state.doing_sel = retreat(self.kanban_state.doing_sel, n);
                } else {
                    self.kanban_state.done_sel = retreat(self.kanban_state.done_sel, n);
                }
            },
            _ => {},
        }
    }

    /// Moves the kanban column focus one column right, wrapping.
    pub fn next_kanban_col(&mut self)
        requires
            old(self).inv(),
        ensures
            final(self).inv(),
            *final(self) == (App {
                kanban_state: KanbanState {
                    focused_col: (if old(self).kanban_state.focused_col < 2 {
                        (old(self).kanban_state.focused_col + 1) as usize
                    } else {
                        0usize
                    }),
                    ..old(self).kanban_state
                },
                ..*old(self)
            }),
    {
        if self.kanban_state.focused_col < 2 {
            self.kanban_state.focused_col = self.kanban_state.focused_col + 1;
        } else {
            self.kanban_state.focused_col = 0;
        }
    }

    /// Moves the kanban column focus one column left, wrapping.
    pub fn prev_kanban_col(&mut self)
        requires
            old(self).inv(),
        ensures
            final(self).inv(),
            *final(self) == (App {
                kanban_state: KanbanState {
                    focused_col: (if old(self).kanban_state.focused_col > 0 {
                        (old(self).kanban_state.focused_col - 1) as usize
                    } else {
                        2usize
                    }),
                    ..old(self).kanban_state
                },
                ..*old(self)
            }),
    {
        if self.kanban_state.focused_col > 0 {
            self.kanban_state.focused_col = self.kanban_state.focused_col - 1;
        } else {
            self.kanban_state.focused_col = 2;
        }
    }

    /// Advances to the next view in the fixed cycle.
    pub fn cycle_view(&mut self)
        requires
            old(self).inv(),
        ensures
            final(self).inv(),
            *final(self) == (App {
                current_view: spec_next_view(old(self).current_view),
                ..*old(self)
            }),
    {
        self.current_view = match self.current_view {
            CurrentView::Splash => CurrentView::Dashboard,
            CurrentView::Dashboard => CurrentView::Kanban,
            CurrentView::Kanban => CurrentView::Focus,
            CurrentView::Focus => CurrentView::Analytics,
            CurrentView::Analytics => CurrentView::Dashboard,
        };
    }

    /// Flips the inspector overlay, but only on the dashboard and only when
    /// the task list shows something.
    pub fn toggle_inspector(&mut self)
        requires
            old(self).inv(),
        ensures
            final(self).inv(),
            if old(self).current_view is Dashboard && old(self).tasks@.len() > 0 {
                *final(self) == (App { is_inspecting: !old(self).is_inspecting, ..*old(self) })
            } else {
                *final(self) == *old(self)
            },
    {
        if matches!(self.current_view, CurrentView::Dashboard) && !self.tasks.is_empty() {
            self.is_inspecting = !self.is_inspecting;
        }
    }

    /// Starts or pauses the focus timer at the current wall-clock second.
    pub fn toggle_timer(&mut self)
        requires
            old(self).inv(),
        ensures
            final(self).inv(),
            same_data(*old(self), *final(self)),
            same_modes(*old(self), *final(self)),
            same_form(*old(self), *final(self)),
            final(self).focus_state.is_running == !old(self).focus_state.is_running,
            final(self).focus_state.duration_sec == old(self).focus_state.duration_sec,
            final(self).focus_state.remaining_sec == old(self).focus_state.remaining_sec,
            final(self).focus_state.is_running ==> final(self).focus_state.last_tick is Some,
            !final(self).focus_state.is_running ==> final(self).focus_state.last_tick is None,
    {
        let now = now_info();
        self.focus_state.toggle_at(now.secs);
    }

    /// Stops the timer and restores the full session.
    pub fn reset_timer(&mut self)
        requires
            old(self).inv(),
        ensures
            final(self).inv(),
            same_data(*old(self), *final(self)),
            same_modes(*old(self), *final(self)),
            same_form(*old(self), *final(self)),
            final(self).focus_state.is_running == false,
            final(self).focus_state.duration_sec == old(self).focus_state.duration_sec,
            final(self).focus_state.remaining_sec == final(self).focus_state.duration_sec,
            final(self).focus_state.last_tick is None,
    {
        self.focus_state.reset();
    }

    /// Pre-fills the form from the selected dashboard task, records its id
    /// as the edit target, and switches to editing mode. Off the dashboard,
    /// or with nothing selected, nothing happens.
    pub fn start_editing(&mut self)
        requires
            old(self).inv(),
        ensures
            final(self).inv(),
            !(old(self).current_view is Dashboard) || old(self).table_sel is None ==> *final(self)
                == *old(self),
            old(self).current_view is Dashboard && old(self).table_sel is Some ==> edit_started(
                *old(self),
                *final(self),
            ),
    {
        if !matches!(self.current_view, CurrentView::Dashboard) {
            return ;
        }
        match self.table_sel {
            Some(i) => {
                proof {
                    lemma_cache_task_valid(*self, i as int);
                }
                let id = self.tasks[i].id.clone();
                let title = str_chars(self.tasks[i].title.as_str());
                let descr = str_chars(self.tasks[i].description.as_str());
                let xp_buf = decimal_chars(self.tasks[i].xp_reward);
                let priority = self.tasks[i].priority;
                let due_buf = match &self.tasks[i].due_date {
                    Some(d) => format_date(d),
                    None => Vec::new(),
                };
                proof {
                    assert(due_buf@ == (match self.tasks@[i as int].due_date {
                        Some(d) => spec_format_date(d),
                        None => Seq::<char>::empty(),
                    }));
                }
                self.editing_task_id = Some(id);
                self.task_form.title = title;
                self.task_form.description = descr;
                self.task_form.priority = priority;
                self.task_form.xp = xp_buf;
                self.task_form.due_date = due_buf;
                self.task_form.active_field = FormField::Title;
                self.input_mode = InputMode::Editing;
            },
            None => {},
        }
    }

    /// Cycles the selected dashboard task one step along
    /// Todo -> Doing -> Done -> Todo, awarding its experience reward exactly
    /// on the step into Done, and rebuilds the cache. Off the dashboard, or
    /// with nothing selected, nothing happens.
    pub fn toggle_status(&mut self)
        requires
            old(self).inv(),
        ensures
            final(self).inv(),
            !(old(self).current_view is Dashboard) || old(self).table_sel is None ==> *final(self)
                == *old(self),
            old(self).current_view is Dashboard && old(self).table_sel is Some ==> status_toggled(
                *old(self),
                *final(self),
            ),
    {
        if !matches!(self.current_view, CurrentView::Dashboard) {
            return ;
        }
        match self.table_sel {
            Some(i) => {
                proof {
                    lemma_cache_task_valid(*self, i as int);
                }
                let id = self.tasks[i].id.clone();
                let xp = self.tasks[i].xp_reward;
                let award = matches!(self.tasks[i].status, TaskStatus::Doing);
                let new_status = self.tasks[i].status.next();
                if award {
                    self.store.add_xp(xp);
                }
                self.store.update_task_status(&id, new_status);
                self.refresh_state();
            },
            None => {},
        }
    }

    /// Deletes the selected dashboard task from the store, rebuilds the
    /// cache, and clamps the cursor. Off the dashboard, or with nothing
    /// selected, nothing happens.
    pub fn delete_current_task(&mut self)
        requires
            old(self).inv(),
        ensures
            final(self).inv(),
            !(old(self).current_view is Dashboard) || old(self).table_sel is None ==> *final(self)
                == *old(self),
            old(self).current_view is Dashboard && old(self).table_sel is Some ==> task_deleted(
                *old(self),
                *final(self),
            ),
    {
        if !matches!(self.current_view, CurrentView::Dashboard) {
            return ;
        }
        match self.table_sel {
            Some(i) => {
                let id = self.tasks[i].id.clone();
                self.store.delete_task(&id);
                self.refresh_state();
            },
            None => {},
        }
    }

    /// Commits the form with the given fresh id and clock reading: a silent
    /// no-op when the trimmed title is blank; otherwise the edit target is
    /// updated in place, or a new Todo task is created, and the form resets.
    pub fn save_task_at(&mut self, new_id: String, now: NowInfo) -> (saved: bool)
        requires
            old(self).inv(),
        ensures
            final(self).inv(),
            saved == !spec_form_blank(old(self).task_form),
            !saved ==> *final(self) == *old(self),
            saved ==> saved_common(*old(self), *final(self)),
            saved ==> match old(self).editing_task_id {
                Some(eid) => saved_edit(*old(self), *final(self), eid@),
                None => saved_create_at(*old(self), *final(self), new_id@, now.secs),
            },
    {
        let collapsed = collapse_newlines(&self.task_form.title);
        let title_c = trim_chars(&collapsed);
        if title_c.len() == 0 {
            return false;
        }
        let title = chars_string(&title_c);
        let desc_c = trim_chars(&self.task_form.description);
        let description = chars_string(&desc_c);
        let xp_c = trim_chars(&self.task_form.xp);
        let xp = parse_xp(&xp_c);
        let due_c = trim_chars(&self.task_form.due_date);
        let due = parse_date(&due_c);
        let priority = self.task_form.priority;
        proof {
            crate::text::lemma_parse_xp_nonneg(spec_trim(old(self).task_form.xp@));
            crate::dates::lemma_parse_date_wf(spec_trim(old(self).task_form.due_date@));
        }
        let eid: Option<String> = match &self.editing_task_id {
            Some(s) => Some(s.clone()),
            None => None,
        };
        match eid {
            Some(id) => {
                self.store.update_task_content(&id, &title, &description, priority, due);
            },
            None => {
                let task = Task {
                    id: new_id,
                    title,
                    description,
                    status: TaskStatus::Todo,
                    priority,
                    xp_reward: xp,
                    due_date: due,
                    created_at: now.secs,
                    completed_at: None,
                };
                self.store.create_task(task);
            },
        }
        self.editing_task_id = None;
        self.task_form = TaskForm::default();
        self.refresh_state();
        true
    }

    /// Commits the form against a fresh identifier and the wall clock.
    pub fn save_task(&mut self) -> (saved: bool)
        requires
            old(self).inv(),
        ensures
            final(self).inv(),
            saved == !spec_form_blank(old(self).task_form),
            !saved ==> *final(self) == *old(self),
            saved ==> saved_common(*old(self), *final(self)),
            saved ==> match old(self).editing_task_id {
                Some(eid) => saved_edit(*old(self), *final(self), eid@),
                None => exists|idv: Seq<char>, secs: i64|
                    #[trigger] saved_create_at(*old(self), *final(self), idv, secs) && idv.len()
                        == 36,
            },
    {
        let id = fresh_task_id();
        let now = now_info();
        self.save_task_at(id, now)
    }

    /// Advances the countdown by the wall-clock time elapsed since its
    /// anchor. Whatever the clock read, the countdown never grows.
    pub fn on_tick(&mut self)
        requires
            old(self).inv(),
        ensures
            final(self).inv(),
            same_data(*old(self), *final(self)),
            same_modes(*old(self), *final(self)),
            same_form(*old(self), *final(self)),
            exists|now: i64| final(self).focus_state == #[trigger] spec_tick(
                old(self).focus_state,
                now,
            ),
            final(self).focus_state.remaining_sec <= old(self).focus_state.remaining_sec,
            final(self).focus_state.duration_sec == old(self).focus_state.duration_sec,
    {
        let now = now_info();
        self.focus_state.tick_at(now.secs);
        proof {
            assert(final(self).focus_state == spec_tick(old(self).focus_state, now.secs));
        }
    }
}

} // verus!
