//! The input router: one key event at a time, interpreted against the
//! current view and mode, becomes exactly one state transition.

use vstd::prelude::*;

use crate::app::{
    cache_rederived, edit_started, item_stepped, opt_id_eq, same_data, same_focus, same_form,
    saved_create_at, saved_edit, spec_form_blank, spec_next_view, status_toggled, task_deleted,
    App, CurrentView, InputMode, KanbanState,
};
use crate::form::{
    chop, form_eq, spec_next_field, spec_prev_field, spec_priority_left, spec_priority_right,
    FormField, TaskForm,
};
use crate::models::TaskPriority;
use crate::sys::{pop_char, push_char};
use crate::text::is_digit;

verus! {

/// One discrete key event, as the router understands it.
#[derive(PartialEq, Eq, Structural, Clone, Copy, Debug)]
pub enum Key {
    Char(char),
    Enter,
    Esc,
    Tab,
    BackTab,
    Backspace,
    Delete,
    Left,
    Right,
    Up,
    Down,
}

/// The key ends the session: `q` on the splash screen or in normal mode.
pub open spec fn spec_quit(o: App, key: Key) -> bool {
    if o.current_view is Splash {
        key == Key::Char('q')
    } else {
        o.input_mode is Normal && key == Key::Char('q')
    }
}

/// The focused kanban column after a shift, wrapping over the three columns.
pub open spec fn spec_col_shift(col: usize, forward: bool) -> usize {
    if forward {
        if col < 2 {
            (col + 1) as usize
        } else {
            0usize
        }
    } else {
        if col > 0 {
            (col - 1) as usize
        } else {
            2usize
        }
    }
}

/// The kanban column focus moved one column, nothing else.
pub open spec fn col_shifted(o: App, f: App, forward: bool) -> bool {
    f == (App {
        kanban_state: KanbanState {
            focused_col: spec_col_shift(o.kanban_state.focused_col, forward),
            ..o.kanban_state
        },
        ..o
    })
}

/// Create mode entered: the edit target cleared, the form reset to its
/// defaults, the mode switched to editing, nothing else touched.
pub open spec fn create_mode_entered(o: App, f: App) -> bool {
    &&& same_data(o, f)
    &&& same_focus(o, f)
    &&& f.current_view == o.current_view
    &&& f.search_query@ == o.search_query@
    &&& f.is_inspecting == o.is_inspecting
    &&& f.show_help == o.show_help
    &&& f.input_mode is Editing
    &&& f.editing_task_id is None
    &&& f.task_form.title@.len() == 0
    &&& f.task_form.description@.len() == 0
    &&& f.task_form.priority == TaskPriority::Medium
    &&& f.task_form.xp@ == seq!['1', '0']
    &&& f.task_form.due_date@.len() == 0
    &&& f.task_form.active_field is Title
}

/// The timer flipped between running and paused, nothing else touched.
pub open spec fn timer_toggled(o: App, f: App) -> bool {
    &&& same_data(o, f)
    &&& f.input_mode == o.input_mode
    &&& f.current_view == o.current_view
    &&& f.is_inspecting == o.is_inspecting
    &&& f.show_help == o.show_help
    &&& f.search_query@ == o.search_query@
    &&& opt_id_eq(f.editing_task_id, o.editing_task_id)
    &&& same_form(o, f)
    &&& f.focus_state.is_running == !o.focus_state.is_running
    &&& f.focus_state.duration_sec == o.focus_state.duration_sec
    &&& f.focus_state.remaining_sec == o.focus_state.remaining_sec
    &&& (f.focus_state.is_running ==> f.focus_state.last_tick is Some)
    &&& (!f.focus_state.is_running ==> f.focus_state.last_tick is None)
}

/// The timer stopped and restored to a full session, nothing else touched.
pub open spec fn timer_reset(o: App, f: App) -> bool {
    &&& same_data(o, f)
    &&& f.input_mode == o.input_mode
    &&& f.current_view == o.current_view
    &&& f.is_inspecting == o.is_inspecting
    &&& f.show_help == o.show_help
    &&& f.search_query@ == o.search_query@
    &&& opt_id_eq(f.editing_task_id, o.editing_task_id)
    &&& same_form(o, f)
    &&& f.focus_state.is_running == false
    &&& f.focus_state.duration_sec == o.focus_state.duration_sec
    &&& f.focus_state.remaining_sec == f.focus_state.duration_sec
    &&& f.focus_state.last_tick is None
}

/// The inspector flipped, but only on a dashboard that shows something.
pub open spec fn inspector_toggled(o: App, f: App) -> bool {
    if o.current_view is Dashboard && o.tasks@.len() > 0 {
        f == (App { is_inspecting: !o.is_inspecting, ..o })
    } else {
        f == o
    }
}

/// Editing cancelled: back to normal mode with the edit target cleared and
/// the form kept as it was.
pub open spec fn edit_cancelled(o: App, f: App) -> bool {
    &&& same_data(o, f)
    &&& same_focus(o, f)
    &&& same_form(o, f)
    &&& f.current_view == o.current_view
    &&& f.search_query@ == o.search_query@
    &&& f.is_inspecting == o.is_inspecting
    &&& f.show_help == o.show_help
    &&& f.input_mode is Normal
    &&& f.editing_task_id is None
}

/// Only the focused form field moved, by one step in the Tab order.
pub open spec fn field_cycled(o: App, f: App, forward: bool) -> bool {
    &&& same_data(o, f)
    &&& same_focus(o, f)
    &&& f.input_mode == o.input_mode
    &&& f.current_view == o.current_view
    &&& f.search_query@ == o.search_query@
    &&& f.is_inspecting == o.is_inspecting
    &&& f.show_help == o.show_help
    &&& opt_id_eq(f.editing_task_id, o.editing_task_id)
    &&& f.task_form.title@ == o.task_form.title@
    &&& f.task_form.description@ == o.task_form.description@
    &&& f.task_form.priority == o.task_form.priority
    &&& f.task_form.xp@ == o.task_form.xp@
    &&& f.task_form.due_date@ == o.task_form.due_date@
    &&& f.task_form.active_field == (if forward {
        spec_next_field(o.task_form.active_field)
    } else {
        spec_prev_field(o.task_form.active_field)
    })
}

/// Only the staged priority moved, by one rotation step.
pub open spec fn priority_cycled(o: App, f: App, forward: bool) -> bool {
    &&& same_data(o, f)
    &&& same_focus(o, f)
    &&& f.input_mode == o.input_mode
    &&& f.current_view == o.current_view
    &&& f.search_query@ == o.search_query@
    &&& f.is_inspecting == o.is_inspecting
    &&& f.show_help == o.show_help
    &&& opt_id_eq(f.editing_task_id, o.editing_task_id)
    &&& f.task_form.title@ == o.task_form.title@
    &&& f.task_form.description@ == o.task_form.description@
    &&& f.task_form.xp@ == o.task_form.xp@
    &&& f.task_form.due_date@ == o.task_form.due_date@
    &&& f.task_form.active_field == o.task_form.active_field
    &&& f.task_form.priority == (if forward {
        spec_priority_right(o.task_form.priority)
    } else {
        spec_priority_left(o.task_form.priority)
    })
}

/// A character entered the focused text buffer, under the reward field's
/// digits-only rule; the priority field takes nothing.
pub open spec fn char_inserted(o: App, f: App, c: char) -> bool {
    &&& same_data(o, f)
    &&& same_focus(o, f)
    &&& f.input_mode == o.input_mode
    &&& f.current_view == o.current_view
    &&& f.search_query@ == o.search_query@
    &&& f.is_inspecting == o.is_inspecting
    &&& f.show_help == o.show_help
    &&& opt_id_eq(f.editing_task_id, o.editing_task_id)
    &&& f.task_form.priority == o.task_form.priority
    &&& f.task_form.active_field == o.task_form.active_field
    &&& match o.task_form.active_field {
        FormField::Title => f.task_form.title@ == o.task_form.title@.push(c)
            && f.task_form.description@ == o.task_form.description@ && f.task_form.xp@
            == o.task_form.xp@ && f.task_form.due_date@ == o.task_form.due_date@,
        FormField::Description => f.task_form.description@ == o.task_form.description@.push(c)
            && f.task_form.title@ == o.task_form.title@ && f.task_form.xp@ == o.task_form.xp@
            && f.task_form.due_date@ == o.task_form.due_date@,
        FormField::XP => f.task_form.xp@ == (if is_digit(c) {
            o.task_form.xp@.push(c)
        } else {
            o.task_form.xp@
        }) && f.task_form.title@ == o.task_form.title@ && f.task_form.description@
            == o.task_form.description@ && f.task_form.due_date@ == o.task_form.due_date@,
        FormField::DueDate => f.task_form.due_date@ == o.task_form.due_date@.push(c)
            && f.task_form.title@ == o.task_form.title@ && f.task_form.description@
            == o.task_form.description@ && f.task_form.xp@ == o.task_form.xp@,
        FormField::Priority => form_eq(f.task_form, o.task_form),
    }
}

/// The focused text buffer lost its last character, if it had one.
pub open spec fn char_backspaced(o: App, f: App) -> bool {
    &&& same_data(o, f)
    &&& same_focus(o, f)
    &&& f.input_mode == o.input_mode
    &&& f.current_view == o.current_view
    &&& f.search_query@ == o.search_query@
    &&& f.is_inspecting == o.is_inspecting
    &&& f.show_help == o.show_help
    &&& opt_id_eq(f.editing_task_id, o.editing_task_id)
    &&& f.task_form.priority == o.task_form.priority
    &&& f.task_form.active_field == o.task_form.active_field
    &&& match o.task_form.active_field {
        FormField::Title => f.task_form.title@ == chop(o.task_form.title@)
            && f.task_form.description@ == o.task_form.description@ && f.task_form.xp@
            == o.task_form.xp@ && f.task_form.due_date@ == o.task_form.due_date@,
        FormField::Description => f.task_form.description@ == chop(o.task_form.description@)
            && f.task_form.title@ == o.task_form.title@ && f.task_form.xp@ == o.task_form.xp@
            && f.task_form.due_date@ == o.task_form.due_date@,
        FormField::XP => f.task_form.xp@ == chop(o.task_form.xp@) && f.task_form.title@
            == o.task_form.title@ && f.task_form.description@ == o.task_form.description@
            && f.task_form.due_date@ == o.task_form.due_date@,
        FormField::DueDate => f.task_form.due_date@ == chop(o.task_form.due_date@)
            && f.task_form.title@ == o.task_form.title@ && f.task_form.description@
            == o.task_form.description@ && f.task_form.xp@ == o.task_form.xp@,
        FormField::Priority => form_eq(f.task_form, o.task_form),
    }
}

/// A save attempt from the form: a blank title leaves everything as it was,
/// the form open; otherwise the store took the edit or the new task, the
/// form reset, and the session returned to normal mode.
pub open spec fn save_attempted(o: App, f: App) -> bool {
    if spec_form_blank(o.task_form) {
        f == o
    } else {
        &&& f.input_mode is Normal
        &&& f.current_view == o.current_view
        &&& f.is_inspecting == o.is_inspecting
        &&& f.show_help == o.show_help
        &&& f.search_query@ == o.search_query@
        &&& f.editing_task_id is None
        &&& f.task_form.title@.len() == 0
        &&& f.task_form.description@.len() == 0
        &&& f.task_form.priority == TaskPriority::Medium
        &&& f.task_form.xp@ == seq!['1', '0']
        &&& f.task_form.due_date@.len() == 0
        &&& f.task_form.active_field is Title
        &&& same_focus(o, f)
        &&& cache_rederived(o, f)
        &&& match o.editing_task_id {
            Some(eid) => saved_edit(o, f, eid@),
            None => exists|idv: Seq<char>, secs: i64|
                #[trigger] saved_create_at(o, f, idv, secs) && idv.len() == 36,
        }
    }
}

/// The search text gained a character and the cache was re-filtered.
pub open spec fn search_typed(o: App, f: App, c: char) -> bool {
    &&& f.store == o.store
    &&& same_form(o, f)
    &&& same_focus(o, f)
    &&& f.input_mode == o.input_mode
    &&& f.current_view == o.current_view
    &&& f.is_inspecting == o.is_inspecting
    &&& f.show_help == o.show_help
    &&& opt_id_eq(f.editing_task_id, o.editing_task_id)
    &&& f.search_query@ == o.search_query@.push(c)
    &&& cache_rederived(o, f)
}

/// The search text lost its last character and the cache was re-filtered.
pub open spec fn search_erased(o: App, f: App) -> bool {
    &&& f.store == o.store
    &&& same_form(o, f)
    &&& same_focus(o, f)
    &&& f.input_mode == o.input_mode
    &&& f.current_view == o.current_view
    &&& f.is_inspecting == o.is_inspecting
    &&& f.show_help == o.show_help
    &&& opt_id_eq(f.editing_task_id, o.editing_task_id)
    &&& f.search_query@ == chop(o.search_query@)
    &&& cache_rederived(o, f)
}

/// The transition table of normal mode.
pub open spec fn normal_rel(o: App, f: App, key: Key) -> bool {
    match key {
        Key::Char(c) => if c == '?' {
            f == (App { show_help: !o.show_help, ..o })
        } else if c == 'q' {
            f == o
        } else if c == 'n' {
            create_mode_entered(o, f)
        } else if c == 'e' {
            if o.current_view is Dashboard && o.table_sel is Some {
                edit_started(o, f)
            } else {
                f == o
            }
        } else if c == 'j' {
            item_stepped(o, f, true)
        } else if c == 'k' {
            item_stepped(o, f, false)
        } else if c == 'l' {
            col_shifted(o, f, true)
        } else if c == 'h' {
            col_shifted(o, f, false)
        } else if c == 't' {
            timer_toggled(o, f)
        } else if c == 'r' {
            timer_reset(o, f)
        } else if c == ' ' {
            if o.current_view is Dashboard && o.table_sel is Some {
                status_toggled(o, f)
            } else {
                f == o
            }
        } else if c == 'd' {
            if o.current_view is Dashboard && o.table_sel is Some {
                task_deleted(o, f)
            } else {
                f == o
            }
        } else if c == '/' {
            f == (App { input_mode: InputMode::Search, ..o })
        } else {
            f == o
        },
        Key::Tab => f == (App { current_view: spec_next_view(o.current_view), ..o }),
        Key::Down => item_stepped(o, f, true),
        Key::Up => item_stepped(o, f, false),
        Key::Right => col_shifted(o, f, true),
        Key::Left => col_shifted(o, f, false),
        Key::Delete => if o.current_view is Dashboard && o.table_sel is Some {
            task_deleted(o, f)
        } else {
            f == o
        },
        Key::Enter => inspector_toggled(o, f),
        Key::Esc => if o.is_inspecting {
            inspector_toggled(o, f)
        } else {
            f == o
        },
        _ => f == o,
    }
}

/// The transition table of editing mode.
pub open spec fn editing_rel(o: App, f: App, key: Key) -> bool {
    match key {
        Key::Esc => edit_cancelled(o, f),
        Key::Tab => field_cycled(o, f, true),
        Key::BackTab => field_cycled(o, f, false),
        Key::Left => if o.task_form.active_field is Priority {
            priority_cycled(o, f, false)
        } else {
            f == o
        },
        Key::Right => if o.task_form.active_field is Priority {
            priority_cycled(o, f, true)
        } else {
            f == o
        },
        Key::Enter => if o.task_form.active_field is Description {
            char_inserted(o, f, '\n')
        } else {
            save_attempted(o, f)
        },
        Key::Char(c) => if c == 'h' && o.task_form.active_field is Priority {
            priority_cycled(o, f, false)
        } else if c == 'l' && o.task_form.active_field is Priority {
            priority_cycled(o, f, true)
        } else {
            char_inserted(o, f, c)
        },
        Key::Backspace => char_backspaced(o, f),
        _ => f == o,
    }
}

/// The transition table of search mode.
pub open spec fn search_rel(o: App, f: App, key: Key) -> bool {
    match key {
        Key::Enter | Key::Esc => f == (App { input_mode: InputMode::Normal, ..o }),
        Key::Backspace => search_erased(o, f),
        Key::Char(c) => search_typed(o, f, c),
        _ => f == o,
    }
}

/// The whole router: what one key does to the session, and when it quits.
pub open spec fn router_rel(o: App, f: App, key: Key, quit: bool) -> bool {
    &&& quit == spec_quit(o, key)
    &&& if o.current_view is Splash {
        if key == Key::Char('q') {
            f == o
        } else {
            f == (App { current_view: CurrentView::Dashboard, ..o })
        }
    } else {
        match o.input_mode {
            InputMode::Normal => normal_rel(o, f, key),
            InputMode::Editing => editing_rel(o, f, key),
            InputMode::Search => search_rel(o, f, key),
        }
    }
}

impl App {
    /// Routes one key event: mutates the session per the transition tables
    /// and says whether the session should end.
    pub fn handle_key(&mut self, key: Key) -> (quit: bool)
        requires
            old(self).inv(),
        ensures
            final(self).inv(),
            router_rel(*old(self), *final(self), key, quit),
    {
        if matches!(self.current_view, CurrentView::Splash) {
            if key == Key::Char('q') {
                return true;
            }
            self.current_view = CurrentView::Dashboard;
            return false;
        }
        match self.input_mode {
            InputMode::Normal => self.handle_normal_key(key),
            InputMode::Editing => {
                self.handle_editing_key(key);
                false
            },
            InputMode::Search => {
                self.handle_search_key(key);
                false
            },
        }
    }

    /// Normal-mode dispatch.
    fn handle_normal_key(&mut self, key: Key) -> (quit: bool)
        requires
            old(self).inv(),
            !(old(self).current_view is Splash),
            old(self).input_mode is Normal,
        ensures
            final(self).inv(),
            normal_rel(*old(self), *final(self), key),
            quit == (key == Key::Char('q')),
    {
        match key {
            Key::Char(c) => {
                if c == '?' {
                    self.show_help = !self.show_help;
                } else if c == 'q' {
                    return true;
                } else if c == 'n' {
                    self.editing_task_id = None;
                    self.task_form = TaskForm::default();
                    self.input_mode = InputMode::Editing;
                } else if c == 'e' {
                    self.start_editing();
                } else if c == 'j' {
                    self.next_item();
                } else if c == 'k' {
                    self.previous_item();
                } else if c == 'l' {
                    self.next_kanban_col();
                } else if c == 'h' {
                    self.prev_kanban_col();
                } else if c == 't' {
                    self.toggle_timer();
                } else if c == 'r' {
                    self.reset_timer();
                } else if c == ' ' {
                    self.toggle_status();
                } else if c == 'd' {
                    self.delete_current_task();
                } else if c == '/' {
                    self.input_mode = InputMode::Search;
                }
            },
            Key::Tab => self.cycle_view(),
            Key::Down => self.next_item(),
            Key::Up => self.previous_item(),
            Key::Right => self.next_kanban_col(),
            Key::Left => self.prev_kanban_col(),
            Key::Delete => self.delete_current_task(),
            Key::Enter => self.toggle_inspector(),
            Key::Esc => {
                if self.is_inspecting {
                    self.toggle_inspector();
                }
            },
            _ => {},
        }
        false
    }

    /// Editing-mode dispatch.
    fn handle_editing_key(&mut self, key: Key)
        requires
            old(self).inv(),
            old(self).input_mode is Editing,
        ensures
            final(self).inv(),
            editing_rel(*old(self), *final(self), key),
    {
        let ghost o = *old(self);
        match key {
            Key::Esc => {
                self.input_mode = InputMode::Normal;
                self.editing_task_id = None;
            },
            Key::Tab => self.task_form.next_field(),
            Key::BackTab => self.task_form.prev_field(),
            Key::Left => {
                if matches!(self.task_form.active_field, FormField::Priority) {
                    self.task_form.priority_left();
                }
            },
            Key::Right => {
                if matches!(self.task_form.active_field, FormField::Priority) {
                    self.task_form.priority_right();
                }
            },
            Key::Enter => {
                if matches!(self.task_form.active_field, FormField::Description) {
                    self.task_form.insert_char('\n');
                } else {
                    let saved = self.save_task();
                    let ghost mid = *self;
                    if saved {
                        self.input_mode = InputMode::Normal;
                    }
                    proof {
                        if saved && o.editing_task_id is None {
                            let (idv, secs) = choose|idv: Seq<char>, secs: i64|
                                #[trigger] saved_create_at(o, mid, idv, secs) && idv.len() == 36;
                            assert(saved_create_at(o, *self, idv, secs) && idv.len() == 36);
                        }
                    }
                }
            },
            Key::Char(c) => {
                if c == 'h' && matches!(self.task_form.active_field, FormField::Priority) {
                    self.task_form.priority_left();
                } else if c == 'l' && matches!(self.task_form.active_field, FormField::Priority) {
                    self.task_form.priority_right();
                } else {
                    self.task_form.insert_char(c);
                }
            },
            Key::Backspace => self.task_form.backspace(),
            _ => {},
        }
    }

    /// Search-mode dispatch.
    fn handle_search_key(&mut self, key: Key)
        requires
            old(self).inv(),
            old(self).input_mode is Search,
        ensures
            final(self).inv(),
            search_rel(*old(self), *final(self), key),
    {
        match key {
            Key::Enter | Key::Esc => {
                self.input_mode = InputMode::Normal;
            },
            Key::Backspace => {
                let _ = pop_char(&mut self.search_query);
                self.refresh_state();
            },
            Key::Char(c) => {
                push_char(&mut self.search_query, c);
                self.refresh_state();
            },
            _ => {},
        }
    }
}

} // verus!
